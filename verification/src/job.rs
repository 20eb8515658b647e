//! What an export is asked to do: where the cluster is, which index to read,
//! how large the pages are, and where the files go.

use vstd::prelude::*;
use vstd::string::StringExecFns;
use std::time::Duration;
use crate::decimal::{decimal, signed_decimal, push_decimal, push_signed_decimal};

verus! {

/// The settings of an export as plain values.
pub struct JobView {
    /// The address of the cluster.
    pub addr: Seq<char>,
    /// The index to export.
    pub index: Seq<char>,
    /// How long the cluster keeps a cursor alive.
    pub scroll: Seq<char>,
    /// The records that a page is asked to hold.
    pub scroll_size: i64,
    /// The query, as the body of the first request.
    pub params: Seq<char>,
    /// The directory that the files are written to.
    pub path: Seq<char>,
    /// The user to authenticate as.
    pub user: Seq<char>,
    /// The user's password, if one is set.
    pub password: Option<Seq<char>>,
    /// The time allowed for a whole request, if limited.
    pub req_timeout: Option<Duration>,
    /// The time allowed for connecting, if limited.
    pub conn_timeout: Option<Duration>,
    /// The idle connections kept per host, if limited.
    pub max_idle_conn: Option<usize>,
}

impl JobView {
    /// The address of the first request: the search on the index, with the
    /// cursor's lifetime and the page size.
    pub open spec fn search_url(self) -> Seq<char> {
        self.addr + "/"@ + self.index + "/_search?scroll="@ + self.scroll + "&size="@
            + signed_decimal(self.scroll_size as int)
    }

    /// The address of every continuation request.
    pub open spec fn scroll_url(self) -> Seq<char> {
        self.addr + "/_search/scroll"@
    }

    /// The file that holds the page of `round`.
    pub open spec fn data_file(self, round: nat) -> Seq<char> {
        self.path + "/"@ + self.index + "_"@ + decimal(round) + ".data"@
    }

    /// The archive that the compression writes.
    pub open spec fn archive_file(self) -> Seq<char> {
        self.path + "/"@ + self.index + ".zip"@
    }
}

/// The settings of an export. They are put together before the export begins
/// and do not change while it runs.
#[derive(Debug)]
pub struct EsDump {
    addr: String,
    index: String,
    scroll: String,
    scroll_size: i64,
    params: String,
    path: String,
    user: String,
    password: Option<String>,
    req_timeout: Option<Duration>,
    conn_timeout: Option<Duration>,
    max_idle_conn: Option<usize>,
}

/// A string that may be absent, as its characters.
pub open spec fn text_view(text: Option<String>) -> Option<Seq<char>> {
    match text {
        Some(t) => Some(t@),
        None => None,
    }
}

impl View for EsDump {
    type V = JobView;

    closed spec fn view(&self) -> JobView {
        JobView {
            addr: self.addr@,
            index: self.index@,
            scroll: self.scroll@,
            scroll_size: self.scroll_size,
            params: self.params@,
            path: self.path@,
            user: self.user@,
            password: text_view(self.password),
            req_timeout: self.req_timeout,
            conn_timeout: self.conn_timeout,
            max_idle_conn: self.max_idle_conn,
        }
    }
}

impl Clone for EsDump {
    /// A copy with the same settings.
    fn clone(&self) -> (copy: Self)
        ensures
            copy@ == self@,
    {
        EsDump {
            addr: self.addr.clone(),
            index: self.index.clone(),
            scroll: self.scroll.clone(),
            scroll_size: self.scroll_size,
            params: self.params.clone(),
            path: self.path.clone(),
            user: self.user.clone(),
            password: match &self.password {
                Some(word) => Some(word.clone()),
                None => None,
            },
            req_timeout: self.req_timeout,
            conn_timeout: self.conn_timeout,
            max_idle_conn: self.max_idle_conn,
        }
    }
}

impl EsDump {
    /// Whether an export can run on these settings: a page holds at least one
    /// record.
    pub open spec fn valid(&self) -> bool {
        self@.scroll_size > 0
    }

    /// The settings for an export of `index` from a cluster on this machine:
    /// cursors that live a minute, pages of 50000 records, files under
    /// `./esdump`, no query, no credentials and no limits on the connection.
    pub fn new(index: &str) -> (job: EsDump)
        ensures
            job@ == (JobView {
                addr: "http://localhost:9200"@,
                index: index@,
                scroll: "1m"@,
                scroll_size: 50000,
                params: Seq::empty(),
                path: "./esdump"@,
                user: Seq::empty(),
                password: None,
                req_timeout: None,
                conn_timeout: None,
                max_idle_conn: None,
            }),
            job.valid(),
    {
        EsDump {
            addr: String::from_str("http://localhost:9200"),
            index: String::from_str(index),
            scroll: String::from_str("1m"),
            scroll_size: 50000,
            params: String::new(),
            path: String::from_str("./esdump"),
            user: String::new(),
            password: None,
            req_timeout: None,
            conn_timeout: None,
            max_idle_conn: None,
        }
    }

    /// Sets the address of the cluster.
    pub fn addr(self, addr: &str) -> (job: EsDump)
        ensures
            job@ == (JobView { addr: addr@, ..self@ }),
    {
        let mut job = self;
        job.addr = String::from_str(addr);
        job
    }

    /// Sets how long the cluster keeps a cursor alive.
    pub fn scroll(self, scroll: &str) -> (job: EsDump)
        ensures
            job@ == (JobView { scroll: scroll@, ..self@ }),
    {
        let mut job = self;
        job.scroll = String::from_str(scroll);
        job
    }

    /// Sets the number of records that a page is asked to hold.
    pub fn scroll_size(self, scroll_size: i64) -> (job: EsDump)
        ensures
            job@ == (JobView { scroll_size: scroll_size, ..self@ }),
    {
        let mut job = self;
        job.scroll_size = scroll_size;
        job
    }

    /// Sets the query.
    pub fn query(self, query: &str) -> (job: EsDump)
        ensures
            job@ == (JobView { params: query@, ..self@ }),
    {
        let mut job = self;
        job.params = String::from_str(query);
        job
    }

    /// Sets the directory that the files are written to.
    pub fn path(self, path: &str) -> (job: EsDump)
        ensures
            job@ == (JobView { path: path@, ..self@ }),
    {
        let mut job = self;
        job.path = String::from_str(path);
        job
    }

    /// Sets the user to authenticate as.
    pub fn user(self, user: &str) -> (job: EsDump)
        ensures
            job@ == (JobView { user: user@, ..self@ }),
    {
        let mut job = self;
        job.user = String::from_str(user);
        job
    }

    /// Sets the user's password.
    pub fn password(self, password: &str) -> (job: EsDump)
        ensures
            job@ == (JobView { password: Some(password@), ..self@ }),
    {
        let mut job = self;
        job.password = Some(String::from_str(password));
        job
    }

    /// Sets the limits of the connection to the cluster: the time allowed for
    /// a whole request, the time allowed for connecting, and the idle
    /// connections kept per host. `None` leaves a limit off.
    pub fn client(
        self,
        req_timeout: Option<Duration>,
        conn_timeout: Option<Duration>,
        max_idle_conn: Option<usize>,
    ) -> (job: EsDump)
        ensures
            job@ == (JobView { req_timeout, conn_timeout, max_idle_conn, ..self@ }),
    {
        let mut job = self;
        job.req_timeout = req_timeout;
        job.conn_timeout = conn_timeout;
        job.max_idle_conn = max_idle_conn;
        job
    }

    /// Whether an export can run on these settings.
    pub fn is_valid(&self) -> (ok: bool)
        ensures
            ok == self.valid(),
    {
        self.scroll_size > 0
    }

    /// The number of records that a page is asked to hold.
    pub fn page_size(&self) -> (size: i64)
        ensures
            size == self@.scroll_size,
    {
        self.scroll_size
    }

    /// The time allowed for a whole request, if limited.
    pub fn request_timeout(&self) -> (limit: Option<Duration>)
        ensures
            limit == self@.req_timeout,
    {
        self.req_timeout
    }

    /// The time allowed for connecting, if limited.
    pub fn connect_timeout(&self) -> (limit: Option<Duration>)
        ensures
            limit == self@.conn_timeout,
    {
        self.conn_timeout
    }

    /// The idle connections kept per host, if limited.
    pub fn max_idle_per_host(&self) -> (limit: Option<usize>)
        ensures
            limit == self@.max_idle_conn,
    {
        self.max_idle_conn
    }

    /// The query, as the body of the first request.
    pub fn query_body(&self) -> (body: String)
        ensures
            body@ == self@.params,
    {
        self.params.clone()
    }

    /// The directory that the files are written to.
    pub fn output_dir(&self) -> (dir: String)
        ensures
            dir@ == self@.path,
    {
        self.path.clone()
    }

    /// How long the cluster keeps a cursor alive.
    pub fn scroll_window(&self) -> (window: String)
        ensures
            window@ == self@.scroll,
    {
        self.scroll.clone()
    }

    /// The user to authenticate as, and the user's password if one is set.
    pub fn credentials(&self) -> (pair: (String, Option<String>))
        ensures
            pair.0@ == self@.user,
            text_view(pair.1) == self@.password,
    {
        let word = match &self.password {
            Some(word) => Some(word.clone()),
            None => None,
        };
        (self.user.clone(), word)
    }

    /// The address of the first request.
    pub fn search_url(&self) -> (url: String)
        ensures
            url@ == self@.search_url(),
    {
        let mut url = self.addr.clone();
        url.append("/");
        url.append(self.index.as_str());
        url.append("/_search?scroll=");
        url.append(self.scroll.as_str());
        url.append("&size=");
        push_signed_decimal(&mut url, self.scroll_size);
        url
    }

    /// The address of every continuation request.
    pub fn scroll_url(&self) -> (url: String)
        ensures
            url@ == self@.scroll_url(),
    {
        let mut url = self.addr.clone();
        url.append("/_search/scroll");
        url
    }

    /// The file that holds the page of `round`.
    pub fn data_file(&self, round: u64) -> (file: String)
        ensures
            file@ == self@.data_file(round as nat),
    {
        let mut file = self.path.clone();
        file.append("/");
        file.append(self.index.as_str());
        file.append("_");
        push_decimal(&mut file, round);
        file.append(".data");
        file
    }

    /// The archive that the compression writes.
    pub fn archive_file(&self) -> (file: String)
        ensures
            file@ == self@.archive_file(),
    {
        let mut file = self.path.clone();
        file.append("/");
        file.append(self.index.as_str());
        file.append(".zip");
        file
    }
}

} // verus!
