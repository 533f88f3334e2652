use std::collections::VecDeque;
use std::sync::Arc;

use vstd::prelude::*;
use vstd::utf8::encode_utf8;

use crate::fetch::{asks, start_spec, FetchAction, FetchError, FetchJob};

verus! {

/// A request to fetch `url`, with the caller's context, which reaches the
/// parser unchanged.
pub struct ReqMessage<E> {
    url: String,
    force: bool,
    flag: Arc<E>,
}

/// A `ReqMessage` as the contracts see it.
pub struct RequestView<E> {
    pub url: Seq<char>,
    pub force: bool,
    pub flag: E,
}

impl<E> View for ReqMessage<E> {
    type V = RequestView<E>;

    closed spec fn view(&self) -> RequestView<E> {
        RequestView { url: self.url@, force: self.force, flag: *self.flag }
    }
}

impl<E> ReqMessage<E> {
    /// The URL to fetch.
    pub fn url(&self) -> (r: &String)
        ensures
            r@ == self@.url,
    {
        &self.url
    }

    /// Whether the cache is to be passed by.
    pub fn force(&self) -> (r: bool)
        ensures
            r == self@.force,
    {
        self.force
    }

    /// The caller's context.
    pub fn flag(&self) -> (r: &Arc<E>)
        ensures
            **r == self@.flag,
    {
        &self.flag
    }

    /// The response to this request, carrying `data`.
    fn gen_res(self, data: Result<Option<Vec<u8>>, FetchError>) -> (r: ResMessage<E>)
        ensures
            r.url@ == self@.url,
            *r.flag == self@.flag,
            r.data == data,
    {
        ResMessage { url: self.url, data, flag: self.flag }
    }
}

/// What a fetch came to, on its way to the parser.
pub struct ResMessage<E> {
    pub url: String,
    pub data: Result<Option<Vec<u8>>, FetchError>,
    pub flag: Arc<E>,
}

/// Why a request was not taken.
#[derive(Debug, Clone, Copy, PartialEq, Eq, Structural)]
pub enum DownloadError {
    /// The count of requests taken has reached its largest value.
    TooManyRequests,
}

/// The coordinator of a crawl: the request and response queues and the
/// progress counters.
pub struct Downloader<E> {
    root_path: String,
    base_url: String,
    requests: VecDeque<ReqMessage<E>>,
    responses: VecDeque<ResMessage<E>>,
    enqueued: u64,
    fetch_started: u64,
    fetch_completed: u64,
    parse_completed: u64,
}

/// A `Downloader` as the contracts see it.
pub struct DownloaderView<E> {
    pub root_path: Seq<char>,
    pub base_url: Seq<char>,
    pub requests: Seq<ReqMessage<E>>,
    pub responses: Seq<ResMessage<E>>,
    pub enqueued: nat,
    pub fetch_started: nat,
    pub fetch_completed: nat,
    pub parse_completed: nat,
}

impl<E> DownloaderView<E> {
    /// Every request taken is queued, being fetched, queued as a response,
    /// being parsed, or done.
    pub open spec fn wf(self) -> bool {
        &&& self.fetch_started + self.requests.len() == self.enqueued
        &&& self.fetch_completed <= self.fetch_started
        &&& self.parse_completed + self.responses.len() <= self.fetch_completed
        &&& self.enqueued <= u64::MAX
    }

    /// Requests taken from the queue whose response is not out yet.
    pub open spec fn fetching(self) -> nat {
        (self.fetch_started - self.fetch_completed) as nat
    }

    /// Responses handed to a parser that has not finished with them.
    pub open spec fn parsing(self) -> nat {
        (self.fetch_completed - self.responses.len() - self.parse_completed) as nat
    }

    /// The crawl is over: both queues are empty, every request taken has
    /// its response, and every response has been parsed.
    pub open spec fn finished(self) -> bool {
        &&& self.requests.len() == 0
        &&& self.responses.len() == 0
        &&& self.enqueued == self.fetch_completed
        &&& self.parse_completed == self.fetch_completed
    }
}

impl<E> View for Downloader<E> {
    type V = DownloaderView<E>;

    closed spec fn view(&self) -> DownloaderView<E> {
        DownloaderView {
            root_path: self.root_path@,
            base_url: self.base_url@,
            requests: self.requests@,
            responses: self.responses@,
            enqueued: self.enqueued as nat,
            fetch_started: self.fetch_started as nat,
            fetch_completed: self.fetch_completed as nat,
            parse_completed: self.parse_completed as nat,
        }
    }
}

/// The crawl is over exactly when every request taken has been parsed, and
/// then no request is queued, being fetched, queued as a response or being
/// parsed.
pub proof fn lemma_finished_when_all_parsed<E>(d: DownloaderView<E>)
    requires
        d.wf(),
    ensures
        d.finished() <==> d.parse_completed == d.enqueued,
        d.finished() ==> d.requests.len() == 0 && d.fetching() == 0 && d.responses.len() == 0
            && d.parsing() == 0,
{
}

impl<E> Downloader<E> {
    /// A coordinator with empty queues and counters at zero, caching under
    /// `root_path` the URLs that begin with `base_url`.
    pub fn new(root_path: String, base_url: String) -> (r: Downloader<E>)
        ensures
            r@.wf(),
            r@.root_path == root_path@,
            r@.base_url == base_url@,
            r@.requests.len() == 0,
            r@.responses.len() == 0,
            r@.enqueued == 0,
            r@.fetch_started == 0,
            r@.fetch_completed == 0,
            r@.parse_completed == 0,
    {
        Downloader {
            root_path,
            base_url,
            requests: VecDeque::new(),
            responses: VecDeque::new(),
            enqueued: 0,
            fetch_started: 0,
            fetch_completed: 0,
            parse_completed: 0,
        }
    }

    /// Queues a request for `url`. It fails only where the count of requests
    /// taken can grow no further.
    pub fn start_url(&mut self, url: String, force: bool, url_flag: Arc<E>) -> (r: Result<
        (),
        DownloadError,
    >)
        requires
            old(self)@.wf(),
        ensures
            final(self)@.wf(),
            r is Err <==> old(self)@.enqueued == u64::MAX,
            r is Err ==> final(self)@ == old(self)@,
            r is Ok ==> {
                &&& final(self)@ == (DownloaderView {
                    requests: final(self)@.requests,
                    enqueued: old(self)@.enqueued + 1,
                    ..old(self)@
                })
                &&& final(self)@.requests.drop_last() == old(self)@.requests
                &&& final(self)@.requests.last()@ == (RequestView {
                    url: url@,
                    force,
                    flag: *url_flag,
                })
                &&& final(self)@.requests.len() == old(self)@.requests.len() + 1
            },
    {
        if self.enqueued == u64::MAX {
            return Err(DownloadError::TooManyRequests);
        }
        let msg = ReqMessage { url, force, flag: url_flag };
        self.requests.push_back(msg);
        self.enqueued = self.enqueued + 1;
        assert(self.requests@.drop_last() =~= old(self).requests@);
        Ok(())
    }

    /// Takes the oldest queued request for fetching, or `None` where none
    /// is queued.
    pub fn take_request(&mut self) -> (r: Option<ReqMessage<E>>)
        requires
            old(self)@.wf(),
        ensures
            final(self)@.wf(),
            r is None <==> old(self)@.requests.len() == 0,
            r is None ==> final(self)@ == old(self)@,
            r matches Some(m) ==> {
                &&& m == old(self)@.requests[0]
                &&& final(self)@ == (DownloaderView {
                    requests: old(self)@.requests.drop_first(),
                    fetch_started: old(self)@.fetch_started + 1,
                    ..old(self)@
                })
            },
    {
        let r = self.requests.pop_front();
        if r.is_some() {
            self.fetch_started = self.fetch_started + 1;
            assert(self.requests@ =~= old(self).requests@.drop_first());
        }
        r
    }

    /// Starts the fetch of `req` under this crawl's base origin.
    pub fn begin_download(&self, req: &ReqMessage<E>) -> (r: (FetchJob, FetchAction))
        ensures
            (r.0@, r.1@) == start_spec(
                encode_utf8(req@.url),
                encode_utf8(self@.base_url),
                req@.force,
            ),
            r.0@.valid(),
            asks(r.0@, r.1@),
    {
        FetchJob::start(req.url.as_str(), self.base_url.as_str(), req.force)
    }

    /// Queues the response to a request taken for fetching, with the result
    /// `data` of its fetch.
    pub fn complete_fetch(&mut self, req: ReqMessage<E>, data: Result<Option<Vec<u8>>, FetchError>)
        requires
            old(self)@.wf(),
            old(self)@.fetching() > 0,
        ensures
            final(self)@.wf(),
            final(self)@ == (DownloaderView {
                responses: final(self)@.responses,
                fetch_completed: old(self)@.fetch_completed + 1,
                ..old(self)@
            }),
            final(self)@.responses.drop_last() == old(self)@.responses,
            final(self)@.responses.len() == old(self)@.responses.len() + 1,
            final(self)@.responses.last().url@ == req@.url,
            *final(self)@.responses.last().flag == req@.flag,
            final(self)@.responses.last().data == data,
    {
        let res = req.gen_res(data);
        self.responses.push_back(res);
        self.fetch_completed = self.fetch_completed + 1;
        assert(self.responses@.drop_last() =~= old(self).responses@);
    }

    /// Takes the oldest queued response for parsing, or `None` where none is
    /// queued.
    pub fn get_msg(&mut self) -> (r: Option<ResMessage<E>>)
        requires
            old(self)@.wf(),
        ensures
            final(self)@.wf(),
            r is None <==> old(self)@.responses.len() == 0,
            r is None ==> final(self)@ == old(self)@,
            r matches Some(m) ==> {
                &&& m == old(self)@.responses[0]
                &&& final(self)@ == (DownloaderView {
                    responses: old(self)@.responses.drop_first(),
                    ..old(self)@
                })
            },
    {
        let r = self.responses.pop_front();
        if r.is_some() {
            assert(self.responses@ =~= old(self).responses@.drop_first());
        }
        r
    }

    /// Marks a response taken for parsing as done with.
    pub fn finish_parse(&mut self, res: ResMessage<E>)
        requires
            old(self)@.wf(),
            old(self)@.parsing() > 0,
        ensures
            final(self)@.wf(),
            final(self)@ == (DownloaderView {
                parse_completed: old(self)@.parse_completed + 1,
                ..old(self)@
            }),
    {
        self.parse_completed = self.parse_completed + 1;
    }

    /// Whether the crawl is over.
    pub fn is_finished(&self) -> (r: bool)
        requires
            self@.wf(),
        ensures
            r == self@.finished(),
            r ==> self@.fetching() == 0 && self@.parsing() == 0,
    {
        proof {
            lemma_finished_when_all_parsed(self@);
        }
        self.requests.len() == 0 && self.responses.len() == 0 && self.enqueued
            == self.fetch_completed && self.parse_completed == self.fetch_completed
    }

    /// Requests taken from the queue whose response is not out yet.
    pub fn fetching(&self) -> (r: u64)
        requires
            self@.wf(),
        ensures
            r == self@.fetching(),
    {
        self.fetch_started - self.fetch_completed
    }

    /// Responses taken by a parser that has not finished with them.
    pub fn parsing(&self) -> (r: u64)
        requires
            self@.wf(),
        ensures
            r == self@.parsing(),
    {
        self.fetch_completed - self.responses.len() as u64 - self.parse_completed
    }

    /// Requests queued and not yet taken.
    pub fn pending_requests(&self) -> (r: usize)
        ensures
            r == self@.requests.len(),
    {
        self.requests.len()
    }

    /// Responses queued and not yet taken.
    pub fn pending_responses(&self) -> (r: usize)
        ensures
            r == self@.responses.len(),
    {
        self.responses.len()
    }

    /// Requests taken so far.
    pub fn enqueued_count(&self) -> (r: u64)
        ensures
            r == self@.enqueued,
    {
        self.enqueued
    }

    /// Requests taken from the queue for fetching so far.
    pub fn fetch_started_count(&self) -> (r: u64)
        ensures
            r == self@.fetch_started,
    {
        self.fetch_started
    }

    /// Responses produced so far.
    pub fn fetch_completed_count(&self) -> (r: u64)
        ensures
            r == self@.fetch_completed,
    {
        self.fetch_completed
    }

    /// Responses parsed so far.
    pub fn parse_completed_count(&self) -> (r: u64)
        ensures
            r == self@.parse_completed,
    {
        self.parse_completed
    }

    /// The directory under which the cache lives.
    pub fn root_path(&self) -> (r: &String)
        ensures
            r@ == self@.root_path,
    {
        &self.root_path
    }

    /// The prefix that a URL must begin with to be fetched.
    pub fn base_url(&self) -> (r: &String)
        ensures
            r@ == self@.base_url,
    {
        &self.base_url
    }
}

impl<E> ResMessage<E> {
    /// Queues the request that this response answered once more, with the
    /// same URL and context.
    pub fn retry(&self, downloader: &mut Downloader<E>, force: bool) -> (r: Result<
        (),
        DownloadError,
    >)
        requires
            old(downloader)@.wf(),
        ensures
            final(downloader)@.wf(),
            r is Err <==> old(downloader)@.enqueued == u64::MAX,
            r is Err ==> final(downloader)@ == old(downloader)@,
            r is Ok ==> {
                &&& final(downloader)@.enqueued == old(downloader)@.enqueued + 1
                &&& final(downloader)@.requests.drop_last() == old(downloader)@.requests
                &&& final(downloader)@.requests.last()@ == (RequestView {
                    url: self.url@,
                    force,
                    flag: *self.flag,
                })
                &&& final(downloader)@.responses == old(downloader)@.responses
                &&& final(downloader)@.fetch_started == old(downloader)@.fetch_started
                &&& final(downloader)@.fetch_completed == old(downloader)@.fetch_completed
                &&& final(downloader)@.parse_completed == old(downloader)@.parse_completed
            },
    {
        downloader.start_url(self.url.clone(), force, Arc::clone(&self.flag))
    }
}

} // verus!
