//! An export, step by step.
//!
//! `dump` begins an export and names its first action. The caller performs
//! each action, reports what happened as an `Event`, and gets the next action
//! from `Export::step`, until the action is `Finish`. What the export decides
//! is what `Control::next` says; this file adds the strings: addresses, file
//! names, the cursor, and the text of each page.

use vstd::prelude::*;
use serde_json::Value;
use crate::control::{Control, Directive, Outcome, Phase, Signal};
use crate::error::ScrollError;
use crate::job::{EsDump, JobView, text_view};
use crate::page::{lines_of, page_text};
use crate::reply::{OpenReply, ResultPage, ScrollReply};

verus! {

/// What happened to the action that the export last asked for.
#[derive(Debug)]
pub enum Event {
    /// The first request was answered, or failed.
    Opened(Result<OpenReply, ScrollError>),
    /// A continuation request was answered, or failed.
    Scrolled(Result<ScrollReply, ScrollError>),
    /// The page was written.
    Written,
    /// The page could not be written.
    WriteFailed,
    /// The compression has returned, whether or not it succeeded.
    Compressed,
}

/// What the caller is to do next.
#[derive(Debug)]
pub enum Action {
    /// Send the search request to `url` with `body`, authenticating as `user`.
    Open { url: String, body: String, user: String, password: Option<String> },
    /// Create `dir` if it is not there, and write `text` to `file`, replacing
    /// what the file held.
    Write { round: u64, dir: String, file: String, text: String },
    /// Compress `dir` into `archive`.
    Compress { dir: String, archive: String },
    /// Send the continuation request to `url`, with the cursor `scroll_id` and
    /// the cursor's lifetime `scroll`, authenticating as `user`.
    Scroll {
        round: u64,
        url: String,
        scroll_id: String,
        scroll: String,
        user: String,
        password: Option<String>,
    },
    /// Stop: the export ended so.
    Finish(Outcome),
}

impl Event {
    /// The event as the export's decisions see it: without records and
    /// cursors. A page without records counts as a gap.
    pub open spec fn signal(self) -> Signal {
        match self {
            Event::Opened(Err(e)) => Signal::OpenFailed(e),
            Event::Opened(Ok(OpenReply::IndexNotFound)) => Signal::NoSuchIndex,
            Event::Opened(Ok(OpenReply::Opened { total, page })) => Signal::Opened {
                total,
                first_len: page.records@.len() as usize,
            },
            Event::Scrolled(Err(e)) => Signal::ScrollFailed(e),
            Event::Scrolled(Ok(ScrollReply::Empty)) => Signal::ScrollEmpty,
            Event::Scrolled(Ok(ScrollReply::Page(page))) => if page.records@.len() == 0 {
                Signal::ScrollEmpty
            } else {
                Signal::ScrollPage
            },
            Event::Written => Signal::Written,
            Event::WriteFailed => Signal::WriteFailed,
            Event::Compressed => Signal::Compressed,
        }
    }

    /// The records that the event brings; none where it brings no page.
    pub open spec fn records(self) -> Seq<Value> {
        match self {
            Event::Opened(Ok(OpenReply::Opened { total, page })) => page.records@,
            Event::Scrolled(Ok(ScrollReply::Page(page))) => page.records@,
            _ => Seq::empty(),
        }
    }

    /// The cursor that is valid after the event: that of the page which the
    /// event brings, and `before` where it brings none.
    pub open spec fn cursor_after(self, before: Seq<char>) -> Seq<char> {
        match self {
            Event::Opened(Ok(OpenReply::Opened { total, page })) => page.cursor@,
            Event::Scrolled(Ok(ScrollReply::Page(page))) => page.cursor@,
            _ => before,
        }
    }

    /// The event as the export's decisions see it.
    pub fn to_signal(&self) -> (signal: Signal)
        ensures
            signal == self.signal(),
    {
        match self {
            Event::Opened(Err(e)) => Signal::OpenFailed(*e),
            Event::Opened(Ok(OpenReply::IndexNotFound)) => Signal::NoSuchIndex,
            Event::Opened(Ok(OpenReply::Opened { total, page })) => Signal::Opened {
                total: *total,
                first_len: page.records.len(),
            },
            Event::Scrolled(Err(e)) => Signal::ScrollFailed(*e),
            Event::Scrolled(Ok(ScrollReply::Empty)) => Signal::ScrollEmpty,
            Event::Scrolled(Ok(ScrollReply::Page(page))) => if page.records.len() == 0 {
                Signal::ScrollEmpty
            } else {
                Signal::ScrollPage
            },
            Event::Written => Signal::Written,
            Event::WriteFailed => Signal::WriteFailed,
            Event::Compressed => Signal::Compressed,
        }
    }
}

impl Action {
    /// The action without its strings.
    pub open spec fn directive(self) -> Directive {
        match self {
            Action::Open { .. } => Directive::Open,
            Action::Write { round, .. } => Directive::Write { round },
            Action::Compress { .. } => Directive::Compress,
            Action::Scroll { round, .. } => Directive::Scroll { round },
            Action::Finish(outcome) => Directive::Finish(outcome),
        }
    }

    /// Whether the action's strings are those of an export of `job` whose
    /// cursor is `cursor` and whose page at hand holds `records`: the
    /// addresses and file names of the job, the job's credentials, the cursor,
    /// and the text of the page.
    pub open spec fn carries(self, job: JobView, cursor: Seq<char>, records: Seq<Value>) -> bool {
        match self {
            Action::Open { url, body, user, password } => {
                &&& url@ == job.search_url()
                &&& body@ == job.params
                &&& user@ == job.user
                &&& text_view(password) == job.password
            },
            Action::Write { round, dir, file, text } => {
                &&& dir@ == job.path
                &&& file@ == job.data_file(round as nat)
                &&& text@ == lines_of(records)
            },
            Action::Compress { dir, archive } => {
                &&& dir@ == job.path
                &&& archive@ == job.archive_file()
            },
            Action::Scroll { round, url, scroll_id, scroll, user, password } => {
                &&& url@ == job.scroll_url()
                &&& scroll_id@ == cursor
                &&& scroll@ == job.scroll
                &&& user@ == job.user
                &&& text_view(password) == job.password
            },
            Action::Finish(_) => true,
        }
    }

    /// The action without its strings.
    pub fn to_directive(&self) -> (directive: Directive)
        ensures
            directive == self.directive(),
    {
        match self {
            Action::Open { .. } => Directive::Open,
            Action::Write { round, .. } => Directive::Write { round: *round },
            Action::Compress { .. } => Directive::Compress,
            Action::Scroll { round, .. } => Directive::Scroll { round: *round },
            Action::Finish(outcome) => Directive::Finish(*outcome),
        }
    }
}

/// An export under way: its settings, where it stands, and the cursor to send
/// next.
#[derive(Debug)]
pub struct Export {
    job: EsDump,
    control: Control,
    cursor: String,
}

impl Export {
    /// The settings of the export.
    pub closed spec fn job(&self) -> JobView {
        self.job@
    }

    /// Where the export stands.
    pub closed spec fn control(&self) -> Control {
        self.control
    }

    /// The cursor that the next continuation request carries.
    pub closed spec fn cursor(&self) -> Seq<char> {
        self.cursor@
    }

    /// What every export meets: its state is well formed, and its pages are as
    /// large as its settings say.
    pub open spec fn wf(&self) -> bool {
        &&& self.control().wf()
        &&& self.control().page_size == self.job().scroll_size
    }

    /// Where the export stands.
    pub fn state(&self) -> (control: Control)
        ensures
            control == self.control(),
    {
        self.control
    }

    /// How the export ended, once it is over.
    pub fn outcome(&self) -> (outcome: Option<Outcome>)
        ensures
            outcome == match self.control().phase {
                Phase::Done(how) => Some(how),
                _ => None,
            },
    {
        match self.control.phase {
            Phase::Done(how) => Some(how),
            _ => None,
        }
    }

    /// The continuation requests that have failed so far. An export that
    /// ended as completed with none of them is whole; with some, the pages of
    /// as many rounds are missing.
    pub fn failed_rounds(&self) -> (failed: u64)
        ensures
            failed == self.control().failed,
    {
        self.control.failed
    }

    /// The cursor that the next continuation request carries.
    pub fn current_cursor(&self) -> (cursor: String)
        ensures
            cursor@ == self.cursor(),
    {
        self.cursor.clone()
    }

    /// The action that `order` stands for, with the strings of this export;
    /// `records` is the page at hand.
    fn action_for(&self, order: Directive, records: &Vec<Value>) -> (action: Action)
        ensures
            action.directive() == order,
            action.carries(self.job(), self.cursor(), records@),
    {
        match order {
            Directive::Open => {
                let (user, password) = self.job.credentials();
                Action::Open {
                    url: self.job.search_url(),
                    body: self.job.query_body(),
                    user,
                    password,
                }
            },
            Directive::Write { round } => Action::Write {
                round,
                dir: self.job.output_dir(),
                file: self.job.data_file(round),
                text: page_text(records),
            },
            Directive::Compress => Action::Compress {
                dir: self.job.output_dir(),
                archive: self.job.archive_file(),
            },
            Directive::Scroll { round } => {
                let (user, password) = self.job.credentials();
                Action::Scroll {
                    round,
                    url: self.job.scroll_url(),
                    scroll_id: self.cursor.clone(),
                    scroll: self.job.scroll_window(),
                    user,
                    password,
                }
            },
            Directive::Finish(outcome) => Action::Finish(outcome),
        }
    }

    /// Takes in what happened to the last action and names the next one.
    ///
    /// The export moves as `Control::next` says for the event's signal. Where
    /// it is not waiting for the event, nothing changes and `None` comes back.
    /// Otherwise the cursor becomes that of the page which the event brings,
    /// if it brings one, and the action carries the strings of the job: a
    /// write holds the file of its round and the text of the event's page, a
    /// continuation request holds the cursor as it now is.
    pub fn step(&mut self, event: Event) -> (action: Option<Action>)
        requires
            old(self).wf(),
        ensures
            final(self).wf(),
            final(self).job() == old(self).job(),
            match old(self).control().next(event.signal()) {
                Some((after, order)) => {
                    &&& final(self).control() == after
                    &&& final(self).cursor() == event.cursor_after(old(self).cursor())
                    &&& action matches Some(act)
                    &&& act.directive() == order
                    &&& act.carries(final(self).job(), final(self).cursor(), event.records())
                },
                None => {
                    &&& final(self).control() == old(self).control()
                    &&& final(self).cursor() == old(self).cursor()
                    &&& action is None
                },
            },
    {
        let signal = event.to_signal();
        let order = match self.control.advance(signal) {
            Some(order) => order,
            None => {
                return None;
            },
        };
        proof {
            crate::laws::lemma_step(old(self).control(), signal);
        }
        let page = match event {
            Event::Opened(Ok(OpenReply::Opened { total, page })) => Some(page),
            Event::Scrolled(Ok(ScrollReply::Page(page))) => Some(page),
            _ => None,
        };
        match page {
            Some(ResultPage { records, cursor }) => {
                self.cursor = cursor;
                Some(self.action_for(order, &records))
            },
            None => {
                let records: Vec<Value> = Vec::new();
                Some(self.action_for(order, &records))
            },
        }
    }
}

/// Begins an export on the settings in `job`. Returns the export, waiting for
/// the first reply, and the request to send: the search on the job's index,
/// with the job's query as its body.
pub fn dump(job: &EsDump) -> (started: (Export, Action))
    requires
        job.valid(),
    ensures
        started.0.wf(),
        started.0.job() == job@,
        started.0.control().initial(),
        started.0.cursor() == Seq::<char>::empty(),
        started.1.directive() == Directive::Open,
        started.1.carries(job@, Seq::empty(), Seq::empty()),
{
    let export = Export {
        job: job.clone(),
        control: Control::start(job.page_size()),
        cursor: String::new(),
    };
    let records: Vec<Value> = Vec::new();
    let action = export.action_for(Directive::Open, &records);
    (export, action)
}

} // verus!
