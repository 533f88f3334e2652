use vstd::prelude::*;
use vstd::string::StringSliceAdditionalSpecFns;
use vstd::utf8::encode_utf8;

use crate::cache::{cache_key, in_scope, key_bytes};

verus! {

/// How many times one request goes to the network before it gives up.
pub const MAX_ATTEMPTS: u64 = 5;

/// Seconds to wait after a failed network attempt.
pub const BACKOFF_SECS: u64 = 1;

/// Why a fetch ended in an error.
#[derive(Debug)]
pub enum FetchError {
    /// The body was downloaded but could not be written to the cache.
    CacheWrite(String),
}

/// Where a fetch stands.
#[derive(Debug, Clone, Copy, PartialEq, Eq, Structural)]
pub enum Stage {
    /// Waiting for the cache to be read.
    Reading,
    /// Waiting for a network attempt.
    Downloading,
    /// Waiting out the pause after a failed attempt.
    Waiting,
    /// Waiting for the downloaded body to be written to the cache.
    Storing,
    /// The response has been handed out.
    Done,
}

/// What the runtime reports back after doing what a fetch asked for.
pub enum FetchEvent {
    /// The cache entry's bytes, or `None` where it could not be read.
    CacheRead(Option<Vec<u8>>),
    /// The body of a successful attempt, or `None` where the attempt failed.
    Downloaded(Option<Vec<u8>>),
    /// The pause after a failed attempt is over.
    Waited,
    /// The body was written to the cache, or the error met on the way.
    Stored(Result<(), String>),
}

/// What a fetch asks the runtime to do next.
#[derive(Debug)]
pub enum FetchAction {
    /// Read the cache entry named by the job's key.
    ReadCache,
    /// Ask the proxy source for a proxy, then send one GET for the URL.
    Download,
    /// Sleep for `BACKOFF_SECS` seconds.
    Wait,
    /// Write the job's body to the cache entry named by its key.
    Store,
    /// The fetch is over: this is its result.
    Respond(Result<Option<Vec<u8>>, FetchError>),
}

/// A fetch as the contracts see it.
pub struct JobView {
    pub key: Option<Seq<u8>>,
    pub force: bool,
    pub attempts: nat,
    pub stage: Stage,
    pub body: Seq<u8>,
}

/// A `FetchEvent` with its bytes and text as sequences.
pub enum EventView {
    CacheRead(Option<Seq<u8>>),
    Downloaded(Option<Seq<u8>>),
    Waited,
    Stored(Result<(), Seq<char>>),
}

/// A `FetchAction` with its bytes and text as sequences.
pub enum ActionView {
    ReadCache,
    Download,
    Wait,
    Store,
    Respond(Result<Option<Seq<u8>>, Seq<char>>),
}

/// The bytes of an optional body, as a sequence.
pub open spec fn opt_bytes(v: Option<Vec<u8>>) -> Option<Seq<u8>> {
    match v {
        Some(b) => Some(b@),
        None => None,
    }
}

impl View for FetchEvent {
    type V = EventView;

    open spec fn view(&self) -> EventView {
        match self {
            FetchEvent::CacheRead(b) => EventView::CacheRead(opt_bytes(*b)),
            FetchEvent::Downloaded(b) => EventView::Downloaded(opt_bytes(*b)),
            FetchEvent::Waited => EventView::Waited,
            FetchEvent::Stored(r) => EventView::Stored(
                match r {
                    Ok(_) => Ok(()),
                    Err(m) => Err(m@),
                },
            ),
        }
    }
}

impl View for FetchAction {
    type V = ActionView;

    open spec fn view(&self) -> ActionView {
        match self {
            FetchAction::ReadCache => ActionView::ReadCache,
            FetchAction::Download => ActionView::Download,
            FetchAction::Wait => ActionView::Wait,
            FetchAction::Store => ActionView::Store,
            FetchAction::Respond(r) => ActionView::Respond(
                match r {
                    Ok(b) => Ok(opt_bytes(*b)),
                    Err(FetchError::CacheWrite(m)) => Err(m@),
                },
            ),
        }
    }
}

impl JobView {
    /// The states a fetch can be in: the attempts stay within the limit, a
    /// job that is not over has a key, the cache is read before any attempt,
    /// and a pause is only taken while attempts remain.
    pub open spec fn valid(self) -> bool {
        &&& self.attempts <= MAX_ATTEMPTS
        &&& self.stage != Stage::Done ==> self.key is Some
        &&& (self.stage == Stage::Downloading || self.stage == Stage::Waiting) ==> self.attempts
            >= 1
        &&& self.stage == Stage::Waiting ==> self.attempts < MAX_ATTEMPTS
        &&& self.stage == Stage::Reading ==> self.attempts == 0
    }

    /// Whether `e` answers what the job asked for last.
    pub open spec fn accepts(self, e: EventView) -> bool {
        match e {
            EventView::CacheRead(_) => self.stage == Stage::Reading,
            EventView::Downloaded(_) => self.stage == Stage::Downloading,
            EventView::Waited => self.stage == Stage::Waiting,
            EventView::Stored(_) => self.stage == Stage::Storing,
        }
    }
}

/// The first state and action of a fetch of `url` under the base origin
/// `base`: a URL outside it is answered at once with no body; a forced fetch
/// goes straight to the network; any other asks the cache first.
pub open spec fn start_spec(url: Seq<u8>, base: Seq<u8>, force: bool) -> (JobView, ActionView) {
    if !in_scope(url, base) {
        (
            JobView { key: None, force, attempts: 0, stage: Stage::Done, body: seq![] },
            ActionView::Respond(Ok(None)),
        )
    } else if force {
        (
            JobView {
                key: Some(key_bytes(url, base)),
                force,
                attempts: 1,
                stage: Stage::Downloading,
                body: seq![],
            },
            ActionView::Download,
        )
    } else {
        (
            JobView {
                key: Some(key_bytes(url, base)),
                force,
                attempts: 0,
                stage: Stage::Reading,
                body: seq![],
            },
            ActionView::ReadCache,
        )
    }
}

/// How a fetch in state `s` moves on when `e` comes back.
pub open spec fn next_spec(s: JobView, e: EventView) -> (JobView, ActionView) {
    match e {
        EventView::CacheRead(Some(b)) => (
            JobView { stage: Stage::Done, ..s },
            ActionView::Respond(Ok(Some(b))),
        ),
        EventView::CacheRead(None) => (
            JobView { stage: Stage::Downloading, attempts: s.attempts + 1, ..s },
            ActionView::Download,
        ),
        EventView::Downloaded(Some(b)) => (
            JobView { stage: Stage::Storing, body: b, ..s },
            ActionView::Store,
        ),
        EventView::Downloaded(None) => if s.attempts < MAX_ATTEMPTS {
            (JobView { stage: Stage::Waiting, ..s }, ActionView::Wait)
        } else {
            (JobView { stage: Stage::Done, ..s }, ActionView::Respond(Ok(None)))
        },
        EventView::Waited => (
            JobView { stage: Stage::Downloading, attempts: s.attempts + 1, ..s },
            ActionView::Download,
        ),
        EventView::Stored(Ok(_)) => (
            JobView { stage: Stage::Done, body: seq![], ..s },
            ActionView::Respond(Ok(Some(s.body))),
        ),
        EventView::Stored(Err(m)) => (
            JobView { stage: Stage::Done, body: seq![], ..s },
            ActionView::Respond(Err(m)),
        ),
    }
}

/// Whether `a` is what a job in state `s` asks for.
pub open spec fn asks(s: JobView, a: ActionView) -> bool {
    match s.stage {
        Stage::Reading => a is ReadCache,
        Stage::Downloading => a is Download,
        Stage::Waiting => a is Wait,
        Stage::Storing => a is Store,
        Stage::Done => a is Respond,
    }
}

/// What a whole fetch comes to.
pub struct FetchRun {
    /// The response, or `None` where the steps ran out first.
    pub result: Option<Result<Option<Seq<u8>>, Seq<char>>>,
    /// The cache afterwards, keyed by entry name.
    pub cache: Map<Seq<u8>, Seq<u8>>,
    /// Network attempts made.
    pub downloads: nat,
    /// Cache reads made.
    pub cache_reads: nat,
}

/// Runs a job from state `s` with pending action `a` for at most `fuel`
/// steps, doing what a runtime does: reads and writes go to `cache` and
/// always succeed, and the n-th network attempt (from 0) gets `net[n]`, a
/// failure past the end of `net`.
pub open spec fn run_spec(
    s: JobView,
    a: ActionView,
    cache: Map<Seq<u8>, Seq<u8>>,
    net: Seq<Option<Seq<u8>>>,
    reads: nat,
    fuel: nat,
) -> FetchRun
    decreases fuel,
{
    if let ActionView::Respond(r) = a {
        FetchRun { result: Some(r), cache, downloads: s.attempts, cache_reads: reads }
    } else if fuel == 0 {
        FetchRun { result: None, cache, downloads: s.attempts, cache_reads: reads }
    } else {
        let k = s.key->Some_0;
        match a {
            ActionView::ReadCache => {
                let got = if cache.contains_key(k) {
                    Some(cache[k])
                } else {
                    None
                };
                let (s2, a2) = next_spec(s, EventView::CacheRead(got));
                run_spec(s2, a2, cache, net, reads + 1, (fuel - 1) as nat)
            },
            ActionView::Download => {
                let i = s.attempts - 1;
                let got = if 0 <= i < net.len() {
                    net[i]
                } else {
                    None
                };
                let (s2, a2) = next_spec(s, EventView::Downloaded(got));
                run_spec(s2, a2, cache, net, reads, (fuel - 1) as nat)
            },
            ActionView::Wait => {
                let (s2, a2) = next_spec(s, EventView::Waited);
                run_spec(s2, a2, cache, net, reads, (fuel - 1) as nat)
            },
            _ => {
                let (s2, a2) = next_spec(s, EventView::Stored(Ok(())));
                run_spec(s2, a2, cache.insert(k, s.body), net, reads, (fuel - 1) as nat)
            },
        }
    }
}

/// Steps that suffice to run a fetch through, whatever the network does.
pub const FETCH_STEPS: u64 = 12;

/// A whole fetch of `url` under `base` against `cache` and the network
/// outcomes `net`.
pub open spec fn fetch_spec(
    url: Seq<u8>,
    base: Seq<u8>,
    force: bool,
    cache: Map<Seq<u8>, Seq<u8>>,
    net: Seq<Option<Seq<u8>>>,
) -> FetchRun {
    let (s, a) = start_spec(url, base, force);
    run_spec(s, a, cache, net, 0, FETCH_STEPS as nat)
}

/// Steps still needed from state `s` in the worst case.
spec fn steps_left(s: JobView) -> nat {
    match s.stage {
        Stage::Reading => 11,
        Stage::Downloading => (2 * (MAX_ATTEMPTS - s.attempts) + 2) as nat,
        Stage::Waiting => (2 * (MAX_ATTEMPTS - s.attempts) + 1) as nat,
        Stage::Storing => 1,
        Stage::Done => 0,
    }
}

proof fn lemma_run_ends(
    s: JobView,
    a: ActionView,
    cache: Map<Seq<u8>, Seq<u8>>,
    net: Seq<Option<Seq<u8>>>,
    reads: nat,
    fuel: nat,
)
    requires
        s.valid(),
        asks(s, a),
        fuel >= steps_left(s),
    ensures
        run_spec(s, a, cache, net, reads, fuel).result is Some,
        s.attempts <= run_spec(s, a, cache, net, reads, fuel).downloads <= MAX_ATTEMPTS,
    decreases fuel,
{
    if !(a is Respond) {
        let k = s.key->Some_0;
        let e = match a {
            ActionView::ReadCache => EventView::CacheRead(
                if cache.contains_key(k) {
                    Some(cache[k])
                } else {
                    None
                },
            ),
            ActionView::Download => EventView::Downloaded(
                if 0 <= s.attempts - 1 < net.len() {
                    net[s.attempts - 1]
                } else {
                    None
                },
            ),
            ActionView::Wait => EventView::Waited,
            _ => EventView::Stored(Ok(())),
        };
        let (s2, a2) = next_spec(s, e);
        let c2 = if a is Store {
            cache.insert(k, s.body)
        } else {
            cache
        };
        let r2 = if a is ReadCache {
            reads + 1
        } else {
            reads
        };
        lemma_run_ends(s2, a2, c2, net, r2, (fuel - 1) as nat);
    }
}

proof fn lemma_run_all_fail(
    s: JobView,
    a: ActionView,
    cache: Map<Seq<u8>, Seq<u8>>,
    net: Seq<Option<Seq<u8>>>,
    reads: nat,
    fuel: nat,
)
    requires
        s.valid(),
        asks(s, a),
        fuel >= steps_left(s),
        s.stage == Stage::Downloading || s.stage == Stage::Waiting,
        forall|i: int| 0 <= i < net.len() ==> net[i] is None,
    ensures
        run_spec(s, a, cache, net, reads, fuel).result == Some(
            Ok::<Option<Seq<u8>>, Seq<char>>(None),
        ),
        run_spec(s, a, cache, net, reads, fuel).downloads == MAX_ATTEMPTS,
        run_spec(s, a, cache, net, reads, fuel).cache == cache,
    decreases fuel,
{
    let e = if a is Download {
        EventView::Downloaded(
            if 0 <= s.attempts - 1 < net.len() {
                net[s.attempts - 1]
            } else {
                None
            },
        )
    } else {
        EventView::Waited
    };
    let (s2, a2) = next_spec(s, e);
    if s2.stage != Stage::Done {
        lemma_run_all_fail(s2, a2, cache, net, reads, (fuel - 1) as nat);
    } else {
        reveal_with_fuel(run_spec, 2);
    }
}

/// A URL outside the base origin is answered with an empty body, and the
/// fetch touches neither the network nor the cache.
pub proof fn lemma_out_of_scope_untouched(
    url: Seq<u8>,
    base: Seq<u8>,
    force: bool,
    cache: Map<Seq<u8>, Seq<u8>>,
    net: Seq<Option<Seq<u8>>>,
)
    requires
        !in_scope(url, base),
    ensures
        fetch_spec(url, base, force, cache, net) == (FetchRun {
            result: Some(Ok(None)),
            cache,
            downloads: 0,
            cache_reads: 0,
        }),
{
}

/// Every fetch comes to a response, after at most `MAX_ATTEMPTS` network
/// attempts; where every attempt fails and the cache does not answer, it is
/// an empty body after exactly `MAX_ATTEMPTS` attempts.
pub proof fn lemma_fetch_answers(
    url: Seq<u8>,
    base: Seq<u8>,
    force: bool,
    cache: Map<Seq<u8>, Seq<u8>>,
    net: Seq<Option<Seq<u8>>>,
)
    ensures
        fetch_spec(url, base, force, cache, net).result is Some,
        fetch_spec(url, base, force, cache, net).downloads <= MAX_ATTEMPTS,
        in_scope(url, base) && (force || !cache.contains_key(key_bytes(url, base))) && (forall|
            i: int,
        | 0 <= i < net.len() ==> net[i] is None) ==> fetch_spec(url, base, force, cache, net)
            == (FetchRun {
            result: Some(Ok(None)),
            cache,
            downloads: MAX_ATTEMPTS as nat,
            cache_reads: if force {
                0
            } else {
                1
            },
        }),
{
    let (s, a) = start_spec(url, base, force);
    lemma_run_ends(s, a, cache, net, 0, FETCH_STEPS as nat);
    if in_scope(url, base) && (force || !cache.contains_key(key_bytes(url, base))) && (forall|
        i: int,
    | 0 <= i < net.len() ==> net[i] is None) {
        if force {
            lemma_run_all_fail(s, a, cache, net, 0, FETCH_STEPS as nat);
            lemma_run_reads_kept(s, a, cache, net, 0, FETCH_STEPS as nat);
        } else {
            let (s2, a2) = next_spec(s, EventView::CacheRead(None));
            lemma_run_all_fail(s2, a2, cache, net, 1, (FETCH_STEPS - 1) as nat);
            lemma_run_reads_kept(s2, a2, cache, net, 1, (FETCH_STEPS - 1) as nat);
        }
    }
}

/// Fetching a URL twice without force, where the cache has no entry for it
/// and the first network attempt succeeds, makes one network attempt in all,
/// and the second fetch answers from the cache with the same bytes.
pub proof fn lemma_second_fetch_from_cache(
    url: Seq<u8>,
    base: Seq<u8>,
    cache: Map<Seq<u8>, Seq<u8>>,
    net1: Seq<Option<Seq<u8>>>,
    net2: Seq<Option<Seq<u8>>>,
)
    requires
        in_scope(url, base),
        !cache.contains_key(key_bytes(url, base)),
        net1.len() > 0,
        net1[0] is Some,
    ensures
        ({
            let first = fetch_spec(url, base, false, cache, net1);
            let second = fetch_spec(url, base, false, first.cache, net2);
            &&& first.result == Some(Ok::<Option<Seq<u8>>, Seq<char>>(Some(net1[0]->Some_0)))
            &&& second.result == first.result
            &&& first.downloads == 1
            &&& second.downloads == 0
        }),
{
    reveal_with_fuel(run_spec, 5);
    let first = fetch_spec(url, base, false, cache, net1);
    assert(first.cache == cache.insert(key_bytes(url, base), net1[0]->Some_0));
}

/// A forced fetch never reads the cache and always goes to the network; where
/// its first attempt succeeds, the body overwrites any cache entry and is the
/// response.
pub proof fn lemma_forced_fetch_refreshes(
    url: Seq<u8>,
    base: Seq<u8>,
    cache: Map<Seq<u8>, Seq<u8>>,
    net: Seq<Option<Seq<u8>>>,
)
    requires
        in_scope(url, base),
    ensures
        fetch_spec(url, base, true, cache, net).downloads >= 1,
        fetch_spec(url, base, true, cache, net).cache_reads == 0,
        net.len() > 0 && net[0] is Some ==> {
            let r = fetch_spec(url, base, true, cache, net);
            &&& r.result == Some(Ok::<Option<Seq<u8>>, Seq<char>>(Some(net[0]->Some_0)))
            &&& r.cache == cache.insert(key_bytes(url, base), net[0]->Some_0)
        },
{
    let (s, a) = start_spec(url, base, true);
    lemma_run_ends(s, a, cache, net, 0, FETCH_STEPS as nat);
    lemma_run_reads_kept(s, a, cache, net, 0, FETCH_STEPS as nat);
    reveal_with_fuel(run_spec, 4);
}

/// A run that never asks the cache again leaves the read count as it was.
proof fn lemma_run_reads_kept(
    s: JobView,
    a: ActionView,
    cache: Map<Seq<u8>, Seq<u8>>,
    net: Seq<Option<Seq<u8>>>,
    reads: nat,
    fuel: nat,
)
    requires
        s.valid(),
        asks(s, a),
        s.stage != Stage::Reading,
    ensures
        run_spec(s, a, cache, net, reads, fuel).cache_reads == reads,
    decreases fuel,
{
    if !(a is Respond) && fuel > 0 {
        let k = s.key->Some_0;
        let e = match a {
            ActionView::Download => EventView::Downloaded(
                if 0 <= s.attempts - 1 < net.len() {
                    net[s.attempts - 1]
                } else {
                    None
                },
            ),
            ActionView::Wait => EventView::Waited,
            _ => EventView::Stored(Ok(())),
        };
        let (s2, a2) = next_spec(s, e);
        let c2 = if a is Store {
            cache.insert(k, s.body)
        } else {
            cache
        };
        lemma_run_reads_kept(s2, a2, c2, net, reads, (fuel - 1) as nat);
    }
}

/// One request on its way through cache and network.
pub struct FetchJob {
    key: Option<String>,
    force: bool,
    attempts: u64,
    stage: Stage,
    body: Vec<u8>,
}

impl View for FetchJob {
    type V = JobView;

    closed spec fn view(&self) -> JobView {
        JobView {
            key: match self.key {
                Some(k) => Some(encode_utf8(k@)),
                None => None,
            },
            force: self.force,
            attempts: self.attempts as nat,
            stage: self.stage,
            body: self.body@,
        }
    }
}

impl FetchJob {
    /// Starts a fetch of `url` under the base origin `base`, and returns the
    /// job with the first thing it asks for.
    pub fn start(url: &str, base: &str, force: bool) -> (r: (FetchJob, FetchAction))
        ensures
            (r.0@, r.1@) == start_spec(url.spec_bytes(), base.spec_bytes(), force),
            r.0@.valid(),
            asks(r.0@, r.1@),
    {
        match cache_key(url, base) {
            None => (
                FetchJob { key: None, force, attempts: 0, stage: Stage::Done, body: Vec::new() },
                FetchAction::Respond(Ok(None)),
            ),
            Some(k) => if force {
                (
                    FetchJob {
                        key: Some(k),
                        force,
                        attempts: 1,
                        stage: Stage::Downloading,
                        body: Vec::new(),
                    },
                    FetchAction::Download,
                )
            } else {
                (
                    FetchJob {
                        key: Some(k),
                        force,
                        attempts: 0,
                        stage: Stage::Reading,
                        body: Vec::new(),
                    },
                    FetchAction::ReadCache,
                )
            },
        }
    }

    /// Whether `e` answers what the job asked for last.
    pub fn accepts(&self, e: &FetchEvent) -> (r: bool)
        ensures
            r == self@.accepts(e@),
    {
        match e {
            FetchEvent::CacheRead(_) => self.stage == Stage::Reading,
            FetchEvent::Downloaded(_) => self.stage == Stage::Downloading,
            FetchEvent::Waited => self.stage == Stage::Waiting,
            FetchEvent::Stored(_) => self.stage == Stage::Storing,
        }
    }

    /// Takes in what the runtime reports and returns what the job asks for
    /// next.
    pub fn step(&mut self, e: FetchEvent) -> (a: FetchAction)
        requires
            old(self)@.valid(),
            old(self)@.accepts(e@),
        ensures
            (final(self)@, a@) == next_spec(old(self)@, e@),
            final(self)@.valid(),
            asks(final(self)@, a@),
    {
        match e {
            FetchEvent::CacheRead(Some(b)) => {
                self.stage = Stage::Done;
                FetchAction::Respond(Ok(Some(b)))
            },
            FetchEvent::CacheRead(None) => {
                self.stage = Stage::Downloading;
                self.attempts = self.attempts + 1;
                FetchAction::Download
            },
            FetchEvent::Downloaded(Some(b)) => {
                self.stage = Stage::Storing;
                self.body = b;
                FetchAction::Store
            },
            FetchEvent::Downloaded(None) => {
                if self.attempts < MAX_ATTEMPTS {
                    self.stage = Stage::Waiting;
                    FetchAction::Wait
                } else {
                    self.stage = Stage::Done;
                    FetchAction::Respond(Ok(None))
                }
            },
            FetchEvent::Waited => {
                self.stage = Stage::Downloading;
                self.attempts = self.attempts + 1;
                FetchAction::Download
            },
            FetchEvent::Stored(r) => {
                let mut b: Vec<u8> = Vec::new();
                std::mem::swap(&mut b, &mut self.body);
                self.stage = Stage::Done;
                match r {
                    Ok(_) => FetchAction::Respond(Ok(Some(b))),
                    Err(m) => FetchAction::Respond(Err(FetchError::CacheWrite(m))),
                }
            },
        }
    }

    /// The name of the cache entry that the job reads and writes; `None` for
    /// a URL outside the base origin.
    pub fn key(&self) -> (r: &Option<String>)
        ensures
            match *r {
                Some(k) => self@.key == Some(encode_utf8(k@)),
                None => self@.key is None,
            },
    {
        &self.key
    }

    /// The downloaded body that waits to be written to the cache.
    pub fn body(&self) -> (r: &Vec<u8>)
        ensures
            r@ == self@.body,
    {
        &self.body
    }

    /// Network attempts made so far.
    pub fn attempts(&self) -> (r: u64)
        ensures
            r == self@.attempts,
    {
        self.attempts
    }

    /// Where the job stands.
    pub fn stage(&self) -> (r: Stage)
        ensures
            r == self@.stage,
    {
        self.stage
    }
}

} // verus!
