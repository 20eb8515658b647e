//! A page of records as the text of its file.

use vstd::prelude::*;
use vstd::string::StringExecFns;
use serde_json::Value;
use crate::json::{json_rendered, render};

verus! {

/// The line that one record adds to a file: its text and a line feed. A record
/// that could not be rendered, or whose text is empty, adds nothing.
pub open spec fn line_of(rendered: Option<Seq<char>>) -> Seq<char> {
    match rendered {
        Some(text) => if text.len() == 0 {
            Seq::empty()
        } else {
            text.push('\n')
        },
        None => Seq::empty(),
    }
}

/// The text of a file that holds `records`: the line of each record, in the
/// order of the records.
pub open spec fn lines_of(records: Seq<Value>) -> Seq<char>
    decreases records.len(),
{
    if records.len() == 0 {
        Seq::empty()
    } else {
        lines_of(records.drop_last()) + line_of(json_rendered(records.last()))
    }
}

/// Appends to `text` the line of one record, given what rendering the record
/// gave: its text, or `None` where it failed. A record without a text is
/// passed over in silence; the file then holds fewer lines than the page had
/// records.
pub fn push_line(text: &mut String, rendered: Option<&str>)
    ensures
        final(text)@ == old(text)@ + line_of(
            match rendered {
                Some(line) => Some(line@),
                None => None,
            },
        ),
{
    match rendered {
        Some(line) => {
            if !line.is_empty() {
                proof {
                    reveal_strlit("\n");
                }
                text.append(line);
                text.append("\n");
                assert(text@ =~= old(text)@ + line@.push('\n'));
            } else {
                assert(text@ =~= old(text)@ + Seq::<char>::empty());
            }
        },
        None => {
            assert(text@ =~= old(text)@ + Seq::<char>::empty());
        },
    }
}

/// Renders a page: every record on a line of its own, each line closed by a
/// line feed, in the order of the records. Records that cannot be rendered are
/// left out.
pub fn page_text(records: &Vec<Value>) -> (text: String)
    ensures
        text@ == lines_of(records@),
{
    let mut text = String::new();
    let mut done: usize = 0;
    while done < records.len()
        invariant
            done <= records.len(),
            text@ == lines_of(records@.take(done as int)),
        decreases records.len() - done,
    {
        let rendered = render(&records[done]);
        proof {
            let upto = records@.take(done + 1);
            assert(upto.drop_last() =~= records@.take(done as int));
            assert(upto.last() == records@[done as int]);
        }
        match rendered {
            Ok(line) => push_line(&mut text, Some(line.as_str())),
            Err(_) => push_line(&mut text, None),
        }
        done += 1;
    }
    assert(records@.take(done as int) =~= records@);
    text
}

} // verus!
