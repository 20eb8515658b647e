//! What the cluster's replies mean.
//!
//! A reply arrives as the text of a JSON document. Of the first reply an
//! export reads the error marker, the cursor, the number of hits and the hits
//! themselves; of a continuation reply the cursor and the hits. `read_open`
//! and `read_scroll` decide on what was found in a document; `decode_open` and
//! `decode_scroll` look it up in the text and hand it to them.

use vstd::prelude::*;
use vstd::string::StringExecFns;
use serde_json::Value;
use crate::error::ScrollError;
use crate::json::{
    json_parsed, json_member, json_text, json_integer, json_items, parse, member, text_of,
    integer_of, items_of,
};

verus! {

/// One page of a result: its records in the order in which the cluster sent
/// them, and the cursor that is valid after it.
#[derive(Debug)]
pub struct ResultPage {
    /// The records, each as the cluster sent it.
    pub records: Vec<Value>,
    /// The cursor to send with the next continuation request.
    pub cursor: String,
}

/// What the first reply said.
#[derive(Debug)]
pub enum OpenReply {
    /// The reply carried an error marker: the index is taken not to exist.
    IndexNotFound,
    /// The search is open: the number of hits as far as the reply told it, and
    /// the first page.
    Opened { total: Option<i64>, page: ResultPage },
}

/// What a continuation reply said.
#[derive(Debug)]
pub enum ScrollReply {
    /// No record came: the round is a gap.
    Empty,
    /// The page of the round.
    Page(ResultPage),
}

/// A borrowed string that may be absent, as its characters.
pub open spec fn str_view(text: Option<&str>) -> Option<Seq<char>> {
    match text {
        Some(t) => Some(t@),
        None => None,
    }
}

/// Records that may be absent, as a sequence.
pub open spec fn items_view(items: Option<Vec<Value>>) -> Option<Seq<Value>> {
    match items {
        Some(v) => Some(v@),
        None => None,
    }
}

/// The number of hits that a reply reports: the plain integer where the reply
/// holds one, else the integer under `value`.
pub open spec fn reported_total(plain: Option<i64>, nested: Option<i64>) -> Option<i64> {
    if plain is Some {
        plain
    } else {
        nested
    }
}

/// What a first reply means, given what was found in it. An error marker
/// means that the index does not exist, whatever else the reply holds. Without
/// a cursor the reply cannot be used. Hits that are absent make an empty page.
pub open spec fn opened_as(
    reply: Result<OpenReply, ScrollError>,
    error_reason: Option<Seq<char>>,
    scroll_id: Option<Seq<char>>,
    total: Option<i64>,
    nested_total: Option<i64>,
    hits: Option<Seq<Value>>,
) -> bool {
    if error_reason is Some {
        reply matches Ok(OpenReply::IndexNotFound)
    } else if scroll_id is None {
        reply matches Err(ScrollError::Decode)
    } else {
        &&& reply matches Ok(OpenReply::Opened { total: reported, page })
        &&& reported == reported_total(total, nested_total)
        &&& page.cursor@ == scroll_id.unwrap()
        &&& page.records@ == match hits {
            Some(items) => items,
            None => Seq::empty(),
        }
    }
}

/// What a continuation reply means, given what was found in it and the cursor
/// that was sent. Hits that are absent or empty make a gap. A page keeps the
/// cursor that was sent where the reply issued no new one.
pub open spec fn scrolled_as(
    reply: ScrollReply,
    scroll_id: Option<Seq<char>>,
    hits: Option<Seq<Value>>,
    sent: Seq<char>,
) -> bool {
    if hits is Some && hits.unwrap().len() > 0 {
        &&& reply matches ScrollReply::Page(page)
        &&& page.records@ == hits.unwrap()
        &&& page.cursor@ == match scroll_id {
            Some(id) => id,
            None => sent,
        }
    } else {
        reply is Empty
    }
}

/// What the text of a first reply means: nothing usable where it is no JSON
/// document, else what `opened_as` says of the document's members.
pub open spec fn open_reply_of(reply: Result<OpenReply, ScrollError>, body: Seq<char>) -> bool {
    match json_parsed(body) {
        None => reply matches Err(ScrollError::Decode),
        Some(doc) => {
            let hits = json_member(doc, "hits"@);
            let total = json_member(hits, "total"@);
            opened_as(
                reply,
                json_text(json_member(json_member(doc, "error"@), "reason"@)),
                json_text(json_member(doc, "_scroll_id"@)),
                json_integer(total),
                json_integer(json_member(total, "value"@)),
                json_items(json_member(hits, "hits"@)),
            )
        },
    }
}

/// What the text of a continuation reply means: nothing usable where it is no
/// JSON document, else what `scrolled_as` says of the document's members.
pub open spec fn scroll_reply_of(
    reply: Result<ScrollReply, ScrollError>,
    body: Seq<char>,
    sent: Seq<char>,
) -> bool {
    match json_parsed(body) {
        None => reply matches Err(ScrollError::Decode),
        Some(doc) => {
            &&& reply matches Ok(found)
            &&& scrolled_as(
                found,
                json_text(json_member(doc, "_scroll_id"@)),
                json_items(json_member(json_member(doc, "hits"@), "hits"@)),
                sent,
            )
        },
    }
}

/// Decides what a first reply means from what was found in it: the reason of
/// an error, the cursor, the number of hits as a plain integer and as the
/// `value` of an object, and the hits.
pub fn read_open(
    error_reason: Option<&str>,
    scroll_id: Option<&str>,
    total: Option<i64>,
    nested_total: Option<i64>,
    hits: Option<Vec<Value>>,
) -> (reply: Result<OpenReply, ScrollError>)
    ensures
        opened_as(
            reply,
            str_view(error_reason),
            str_view(scroll_id),
            total,
            nested_total,
            items_view(hits),
        ),
{
    if error_reason.is_some() {
        return Ok(OpenReply::IndexNotFound);
    }
    let cursor = match scroll_id {
        Some(id) => String::from_str(id),
        None => {
            return Err(ScrollError::Decode);
        },
    };
    let reported = match total {
        Some(n) => Some(n),
        None => nested_total,
    };
    let records = match hits {
        Some(items) => items,
        None => Vec::new(),
    };
    Ok(OpenReply::Opened { total: reported, page: ResultPage { records, cursor } })
}

/// Decides what a continuation reply means from what was found in it, the
/// cursor and the hits, and from the cursor that was sent.
pub fn read_scroll(scroll_id: Option<&str>, hits: Option<Vec<Value>>, sent: &str) -> (reply:
    ScrollReply)
    ensures
        scrolled_as(reply, str_view(scroll_id), items_view(hits), sent@),
{
    match hits {
        Some(records) => {
            if records.len() > 0 {
                let cursor = match scroll_id {
                    Some(id) => String::from_str(id),
                    None => String::from_str(sent),
                };
                ScrollReply::Page(ResultPage { records, cursor })
            } else {
                ScrollReply::Empty
            }
        },
        None => ScrollReply::Empty,
    }
}

/// Reads the first reply of the cluster from its text.
pub fn decode_open(body: &str) -> (reply: Result<OpenReply, ScrollError>)
    ensures
        open_reply_of(reply, body@),
{
    match parse(body) {
        Err(_) => Err(ScrollError::Decode),
        Ok(doc) => {
            let hits = member(&doc, "hits");
            let total = member(hits, "total");
            read_open(
                text_of(member(member(&doc, "error"), "reason")),
                text_of(member(&doc, "_scroll_id")),
                integer_of(total),
                integer_of(member(total, "value")),
                items_of(member(hits, "hits")),
            )
        },
    }
}

/// Reads a continuation reply of the cluster from its text; `sent` is the
/// cursor that the request carried.
pub fn decode_scroll(body: &str, sent: &str) -> (reply: Result<ScrollReply, ScrollError>)
    ensures
        scroll_reply_of(reply, body@, sent@),
{
    match parse(body) {
        Err(_) => Err(ScrollError::Decode),
        Ok(doc) => Ok(
            read_scroll(
                text_of(member(&doc, "_scroll_id")),
                items_of(member(member(&doc, "hits"), "hits")),
                sent,
            ),
        ),
    }
}

} // verus!
