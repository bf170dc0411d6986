//! The resource cache: a deduplicating store of externally fetched images,
//! keyed by URI.
//!
//! The cache does no fetching itself. A request for a URI it has not seen
//! creates a pending entry and queues one fetch for the host to perform; the
//! host reports the outcome with [`ResourceCache::resolve`]. A request for a
//! URI it has seen hands back the entry that is already there. An entry, once
//! resolved, keeps its outcome.

use futures::channel::oneshot::{Canceled, Receiver};
use futures::future::Shared;
use futures::FutureExt;
use std::future::Future;
use vstd::prelude::*;

verus! {

/// Decoded pixel data, by the identifier under which the host holds it.
#[derive(Clone, Copy, Debug, PartialEq, Eq, Structural)]
pub struct ImageData {
    pub id: u64,
    pub width: u32,
    pub height: u32,
}

/// Why a resource could not be had.
#[derive(Clone, Copy, Debug, PartialEq, Eq, Structural)]
pub enum FetchError {
    /// The bytes could not be fetched.
    Fetch,
    /// The bytes were fetched and could not be decoded.
    Decode,
    /// The fetch was given up before it had an outcome.
    Canceled,
}

/// What the cache knows of one URI.
#[derive(Clone, Copy, Debug, PartialEq, Eq, Structural)]
pub enum ResourceState {
    Pending,
    Ready(ImageData),
    Failed(FetchError),
}

/// What a requester holds of an entry; it stays valid for the life of the
/// cache.
#[derive(Clone, Copy, Debug, PartialEq, Eq, Structural)]
pub struct ResourceHandle(pub usize);

struct CacheEntry {
    uri: String,
    state: ResourceState,
}

/// The cache. Its entries are never evicted.
pub struct ResourceCache {
    entries: Vec<CacheEntry>,
    started: usize,
}

/// The cache as a value: its URIs in the order in which they were first
/// requested, the state of each, and how many of the queued fetches the host
/// has taken.
pub struct CacheModel {
    pub uris: Seq<Seq<char>>,
    pub states: Seq<ResourceState>,
    pub started: nat,
}

/// The state in which an outcome leaves an entry.
pub open spec fn state_of_outcome(outcome: Result<ImageData, FetchError>) -> ResourceState {
    match outcome {
        Ok(data) => ResourceState::Ready(data),
        Err(error) => ResourceState::Failed(error),
    }
}

/// What a poll of an entry in the given state observes.
pub open spec fn outcome_of_state(state: ResourceState) -> Option<Result<ImageData, FetchError>> {
    match state {
        ResourceState::Pending => None,
        ResourceState::Ready(data) => Some(Ok(data)),
        ResourceState::Failed(error) => Some(Err(error)),
    }
}

impl CacheModel {
    /// The cache that has seen no request.
    pub open spec fn empty() -> CacheModel {
        CacheModel { uris: Seq::empty(), states: Seq::empty(), started: 0 }
    }

    /// One state per URI, and no URI twice.
    pub open spec fn wf(self) -> bool {
        &&& self.uris.len() == self.states.len()
        &&& forall|i: int, j: int|
            0 <= i < j < self.uris.len() ==> self.uris[i] != self.uris[j]
    }

    /// Whether `uri` was requested before.
    pub open spec fn holds(self, uri: Seq<char>) -> bool {
        self.uris.contains(uri)
    }

    /// The place of `uri`: where it is, or where a request would put it.
    pub open spec fn slot(self, uri: Seq<char>) -> int {
        if self.holds(uri) {
            self.uris.index_of(uri)
        } else {
            self.uris.len() as int
        }
    }

    /// The fetches queued so far, oldest first: one for each URI.
    pub open spec fn fetches(self) -> Seq<Seq<char>> {
        self.uris
    }

    /// How often a fetch of `uri` was queued.
    pub open spec fn fetch_count(self, uri: Seq<char>) -> nat {
        self.fetches().filter(|u: Seq<char>| u == uri).len()
    }

    /// The cache after a request for `uri`.
    pub open spec fn requested(self, uri: Seq<char>) -> CacheModel {
        if self.holds(uri) {
            self
        } else {
            CacheModel {
                uris: self.uris.push(uri),
                states: self.states.push(ResourceState::Pending),
                started: self.started,
            }
        }
    }

    /// The cache after `n` requests for `uri` in a row.
    pub open spec fn requested_times(self, uri: Seq<char>, n: nat) -> CacheModel
        decreases n,
    {
        if n == 0 {
            self
        } else {
            self.requested(uri).requested_times(uri, (n - 1) as nat)
        }
    }

    /// What a poll through `handle` observes: nothing while the entry is
    /// pending, and nothing through a handle that the cache did not give.
    pub open spec fn outcome(self, handle: int) -> Option<Result<ImageData, FetchError>> {
        if 0 <= handle < self.states.len() {
            outcome_of_state(self.states[handle])
        } else {
            None
        }
    }

    /// Whether a report of an outcome for `uri` changes the cache: the URI is
    /// held and still pending.
    pub open spec fn awaits(self, uri: Seq<char>) -> bool {
        self.holds(uri) && self.states[self.slot(uri)] is Pending
    }

    /// The cache after the host has reported `outcome` for `uri`.
    pub open spec fn resolved(
        self,
        uri: Seq<char>,
        outcome: Result<ImageData, FetchError>,
    ) -> CacheModel {
        if self.awaits(uri) {
            CacheModel {
                uris: self.uris,
                states: self.states.update(self.slot(uri), state_of_outcome(outcome)),
                started: self.started,
            }
        } else {
            self
        }
    }

    /// The cache after the host has taken the next queued fetch, if any.
    pub open spec fn fetch_taken(self) -> CacheModel {
        if self.started < self.uris.len() {
            CacheModel { uris: self.uris, states: self.states, started: self.started + 1 }
        } else {
            self
        }
    }
}

spec fn model_of(entries: Seq<CacheEntry>, started: usize) -> CacheModel {
    CacheModel {
        uris: Seq::new(entries.len(), |i: int| entries[i].uri@),
        states: Seq::new(entries.len(), |i: int| entries[i].state),
        started: started as nat,
    }
}

impl View for ResourceCache {
    type V = CacheModel;

    closed spec fn view(&self) -> CacheModel {
        model_of(self.entries@, self.started)
    }
}

impl ResourceCache {
    #[verifier::type_invariant]
    spec fn well_formed(&self) -> bool {
        self@.wf()
    }

    /// A cache that has seen no request.
    pub fn new() -> (r: ResourceCache)
        ensures
            r@ == CacheModel::empty(),
            r@.wf(),
    {
        let r = ResourceCache { entries: Vec::new(), started: 0 };
        assert(r@.uris =~= Seq::empty());
        assert(r@.states =~= Seq::empty());
        r
    }

    /// The number of URIs the cache holds.
    pub fn len(&self) -> (r: usize)
        ensures
            r == self@.uris.len(),
            self@.wf(),
    {
        proof {
            use_type_invariant(self);
        }
        self.entries.len()
    }

    fn find(&self, uri: &String) -> (r: Option<usize>)
        ensures
            self@.wf(),
            match r {
                Some(i) => self@.holds(uri@) && i == self@.slot(uri@) && i < self@.uris.len(),
                None => !self@.holds(uri@),
            },
    {
        proof {
            use_type_invariant(self);
        }
        let mut i: usize = 0;
        while i < self.entries.len()
            invariant
                i <= self.entries.len(),
                self@.uris.len() == self.entries.len(),
                self@.wf(),
                forall|k: int| 0 <= k < i ==> self@.uris[k] != uri@,
            decreases self.entries.len() - i,
        {
            if self.entries[i].uri == *uri {
                assert(self@.uris[i as int] == uri@);
                return Some(i);
            }
            i += 1;
        }
        None
    }

    /// Requests `uri`. The handle is that of the entry already there, if
    /// there is one; otherwise a pending entry is made and one fetch queued.
    pub fn get(&mut self, uri: &String) -> (r: ResourceHandle)
        ensures
            final(self)@ == old(self)@.requested(uri@),
            r.0 == old(self)@.slot(uri@),
            final(self)@.wf(),
            final(self)@.holds(uri@),
            final(self)@.slot(uri@) == r.0,
            r.0 < final(self)@.uris.len(),
            final(self)@.uris[r.0 as int] == uri@,
    {
        match self.find(uri) {
            Some(i) => ResourceHandle(i),
            None => {
                let ghost before = self@;
                let mut entries: Vec<CacheEntry> = Vec::new();
                assert(model_of(entries@, self.started).wf());
                std::mem::swap(&mut self.entries, &mut entries);
                let at: usize = entries.len();
                entries.push(CacheEntry { uri: uri.clone(), state: ResourceState::Pending });
                proof {
                    let after = model_of(entries@, self.started);
                    assert(after.uris =~= before.uris.push(uri@));
                    assert(after.states =~= before.states.push(ResourceState::Pending));
                    assert(after.uris[at as int] == uri@);
                    assert(after.wf());
                }
                std::mem::swap(&mut self.entries, &mut entries);
                ResourceHandle(at)
            },
        }
    }

    /// Looks `uri` up without requesting it.
    pub fn handle_of(&self, uri: &String) -> (r: Option<ResourceHandle>)
        ensures
            self@.wf(),
            match r {
                Some(h) => self@.holds(uri@) && h.0 == self@.slot(uri@) && h.0 < self@.uris.len()
                    && self@.uris[h.0 as int] == uri@,
                None => !self@.holds(uri@),
            },
    {
        match self.find(uri) {
            Some(i) => Some(ResourceHandle(i)),
            None => None,
        }
    }

    /// Polls an entry without waiting: its outcome, if it has one.
    pub fn poll(&self, handle: ResourceHandle) -> (r: Option<Result<ImageData, FetchError>>)
        ensures
            r == self@.outcome(handle.0 as int),
    {
        if handle.0 < self.entries.len() {
            match self.entries[handle.0].state {
                ResourceState::Pending => None,
                ResourceState::Ready(data) => Some(Ok(data)),
                ResourceState::Failed(error) => Some(Err(error)),
            }
        } else {
            None
        }
    }

    /// Records the outcome of the fetch of `uri`. Returns whether the cache
    /// changed: an unknown URI or an entry that is already resolved is left
    /// as it is.
    pub fn resolve(&mut self, uri: &String, outcome: Result<ImageData, FetchError>) -> (r: bool)
        ensures
            final(self)@ == old(self)@.resolved(uri@, outcome),
            r == old(self)@.awaits(uri@),
            final(self)@.wf(),
    {
        match self.find(uri) {
            Some(i) => {
                match self.entries[i].state {
                    ResourceState::Pending => {
                        let ghost before = self@;
                        let state = match outcome {
                            Ok(data) => ResourceState::Ready(data),
                            Err(error) => ResourceState::Failed(error),
                        };
                        let mut entries: Vec<CacheEntry> = Vec::new();
                        assert(model_of(entries@, self.started).wf());
                        std::mem::swap(&mut self.entries, &mut entries);
                        entries[i].state = state;
                        proof {
                            let after = model_of(entries@, self.started);
                            assert(after.uris =~= before.uris);
                            assert(after.states =~= before.states.update(i as int, state));
                            assert(after.wf());
                        }
                        std::mem::swap(&mut self.entries, &mut entries);
                        true
                    },
                    _ => false,
                }
            },
            None => false,
        }
    }

    /// Hands the host the next fetch to perform, oldest first.
    pub fn take_fetch(&mut self) -> (r: Option<String>)
        ensures
            final(self)@ == old(self)@.fetch_taken(),
            final(self)@.wf(),
            match r {
                Some(uri) => old(self)@.started < old(self)@.uris.len() && uri@ == old(self)@.uris[
                    old(self)@.started as int],
                None => old(self)@.started >= old(self)@.uris.len(),
            },
    {
        proof {
            use_type_invariant(&*self);
        }
        if self.started < self.entries.len() {
            let uri = self.entries[self.started].uri.clone();
            self.started = self.started + 1;
            Some(uri)
        } else {
            None
        }
    }
}

/// `futures::future::Shared`: a future that can be cloned, all clones
/// resolving to clones of one output.
#[verifier::external_type_specification]
#[verifier::external_body]
#[verifier::reject_recursive_types(Fut)]
pub struct ExShared<Fut: Future>(Shared<Fut>);

/// `futures::channel::oneshot::Receiver`: the receiving end of a channel
/// that carries one value.
#[verifier::external_type_specification]
#[verifier::external_body]
#[verifier::reject_recursive_types(T)]
pub struct ExReceiver<T>(Receiver<T>);

/// `futures::channel::oneshot::Canceled`: what a receiver resolves to when
/// the sender was dropped before it sent.
#[verifier::external_type_specification]
#[verifier::external_body]
pub struct ExCanceled(Canceled);

/// The future of the outcome of one fetch, as the host holds it while the
/// fetch is under way: the receiving end of the channel through which the
/// fetching task sends the outcome, made shareable.
///
/// The shared future is polled through clones only, never itself, so it is
/// never used up.
pub struct FetchHandle {
    shared: Shared<Receiver<Result<ImageData, FetchError>>>,
}

/// `FutureExt::shared` on the receiver: the receiver behind a shareable
/// future that has not been polled.
#[verifier::external_body]
fn share(receiver: Receiver<Result<ImageData, FetchError>>) -> (r: FetchHandle) {
    FetchHandle { shared: receiver.shared() }
}

/// `FutureExt::now_or_never` on a clone of the shared future: one poll
/// without waiting, which gives the output if it is there. Nothing is
/// promised of which it is, as that depends on whether the sender has sent.
#[verifier::external_body]
fn poll_now(handle: &FetchHandle) -> (r: Option<Result<Result<ImageData, FetchError>, Canceled>>) {
    handle.shared.clone().now_or_never()
}

impl FetchHandle {
    /// The future of what is sent to `receiver`.
    pub fn new(receiver: Receiver<Result<ImageData, FetchError>>) -> (r: FetchHandle) {
        share(receiver)
    }

    /// Polls the fetch without waiting: nothing while it is under way, its
    /// outcome once it is done, and [`FetchError::Canceled`] if the fetching
    /// task went away without sending one.
    pub fn poll(&self) -> (r: Option<Result<ImageData, FetchError>>) {
        outcome_of_poll(poll_now(self))
    }
}

/// What a poll of a fetch means for the cache.
pub open spec fn polled_outcome(
    polled: Option<Result<Result<ImageData, FetchError>, Canceled>>,
) -> Option<Result<ImageData, FetchError>> {
    match polled {
        None => None,
        Some(Ok(outcome)) => Some(outcome),
        Some(Err(_)) => Some(Err(FetchError::Canceled)),
    }
}

/// What a poll of a fetch means for the cache: nothing while the fetch is
/// under way, the outcome that was sent, or a failure if none will be.
pub fn outcome_of_poll(polled: Option<Result<Result<ImageData, FetchError>, Canceled>>) -> (r:
    Option<Result<ImageData, FetchError>>)
    ensures
        r == polled_outcome(polled),
{
    match polled {
        None => None,
        Some(Ok(outcome)) => Some(outcome),
        Some(Err(_)) => Some(Err(FetchError::Canceled)),
    }
}

impl ResourceCache {
    /// Polls the fetch of `uri` and, if it is done, records its outcome.
    /// Returns whether the cache changed.
    pub fn absorb(&mut self, uri: &String, fetch: &FetchHandle) -> (r: bool)
        ensures
            final(self)@.wf(),
            final(self)@.uris == old(self)@.uris,
            final(self)@.started == old(self)@.started,
            r ==> old(self)@.awaits(uri@) && exists|outcome: Result<ImageData, FetchError>|
                final(self)@ == old(self)@.resolved(uri@, outcome),
            !r ==> final(self)@ == old(self)@,
    {
        self.absorb_outcome(uri, fetch.poll())
    }

    /// Records what a poll of the fetch of `uri` observed: nothing if the
    /// fetch is not done, its outcome otherwise.
    pub fn absorb_outcome(
        &mut self,
        uri: &String,
        polled: Option<Result<ImageData, FetchError>>,
    ) -> (r: bool)
        ensures
            final(self)@.wf(),
            final(self)@ == (match polled {
                Some(outcome) => old(self)@.resolved(uri@, outcome),
                None => old(self)@,
            }),
            r == (polled is Some && old(self)@.awaits(uri@)),
    {
        proof {
            use_type_invariant(&*self);
        }
        match polled {
            Some(outcome) => self.resolve(uri, outcome),
            None => false,
        }
    }
}

/// Requests deduplicate. Any number of requests for one URI that the cache
/// has not seen queue exactly one fetch, and every requester is handed the
/// same entry. Once the host reports the outcome, every requester observes
/// that outcome through its handle.
pub proof fn lemma_requests_deduplicate(
    cache: CacheModel,
    uri: Seq<char>,
    n: nat,
    outcome: Result<ImageData, FetchError>,
)
    requires
        cache.wf(),
        !cache.holds(uri),
        n >= 1,
    ensures
        cache.requested_times(uri, n) == cache.requested(uri),
        cache.requested_times(uri, n).wf(),
        cache.requested_times(uri, n).fetches() == cache.fetches().push(uri),
        cache.requested_times(uri, n).fetch_count(uri) == 1,
        forall|k: nat|
            k <= n ==> (#[trigger] cache.requested_times(uri, k)).slot(uri) == cache.slot(uri),
        cache.requested_times(uri, n).resolved(uri, outcome).outcome(cache.slot(uri)) == Some(
            outcome,
        ),
{
    let once = cache.requested(uri);
    assert(once.uris[cache.uris.len() as int] == uri);
    assert(once.holds(uri));
    assert(once.wf());
    lemma_repeat_is_idle(once, uri, (n - 1) as nat);
    assert(once.slot(uri) == cache.uris.len());
    assert forall|k: nat| k <= n implies (#[trigger] cache.requested_times(uri, k)).slot(uri)
        == cache.slot(uri) by {
        if k > 0 {
            lemma_repeat_is_idle(once, uri, (k - 1) as nat);
        }
    }
    lemma_fetch_count(once, uri);
}

/// A request for a URI that the cache holds changes nothing, however often
/// it is made.
pub proof fn lemma_repeat_is_idle(cache: CacheModel, uri: Seq<char>, n: nat)
    requires
        cache.holds(uri),
    ensures
        cache.requested_times(uri, n) == cache,
    decreases n,
{
    if n > 0 {
        lemma_repeat_is_idle(cache, uri, (n - 1) as nat);
    }
}

/// In a well-formed cache a fetch was queued exactly once for each URI it
/// holds, and never for any other.
pub proof fn lemma_fetch_count(cache: CacheModel, uri: Seq<char>)
    requires
        cache.wf(),
    ensures
        cache.fetch_count(uri) == (if cache.holds(uri) {
            1nat
        } else {
            0nat
        }),
    decreases cache.uris.len(),
{
    let pred = |u: Seq<char>| u == uri;
    if cache.uris.len() == 0 {
        assert(cache.uris.filter(pred) =~= Seq::empty()) by {
            reveal(Seq::filter);
        }
    } else {
        let rest = CacheModel {
            uris: cache.uris.drop_last(),
            states: cache.states.drop_last(),
            started: 0,
        };
        lemma_fetch_count(rest, uri);
        reveal(Seq::filter);
        let last = cache.uris.last();
        if last == uri {
            assert(!rest.holds(uri)) by {
                if rest.holds(uri) {
                    let i = rest.uris.index_of(uri);
                    assert(cache.uris[i] == uri);
                }
            }
        } else {
            if cache.holds(uri) {
                let i = cache.uris.index_of(uri);
                assert(rest.uris[i] == uri);
            }
            if rest.holds(uri) {
                let i = rest.uris.index_of(uri);
                assert(cache.uris[i] == uri);
            }
        }
    }
}

/// An entry keeps its outcome: once a URI is resolved, a later report for it
/// and any request leave what its handle observes unchanged.
pub proof fn lemma_outcome_is_kept(
    cache: CacheModel,
    uri: Seq<char>,
    later: Result<ImageData, FetchError>,
    other: Seq<char>,
)
    requires
        cache.wf(),
        cache.holds(uri),
        cache.outcome(cache.slot(uri)) is Some,
    ensures
        cache.resolved(uri, later) == cache,
        cache.requested(other).outcome(cache.slot(uri)) == cache.outcome(cache.slot(uri)),
        cache.requested(other).slot(uri) == cache.slot(uri),
{
    let i = cache.uris.index_of(uri);
    if !cache.holds(other) {
        let after = cache.requested(other);
        assert(after.uris[i] == uri);
        assert(after.holds(uri));
        let j = after.uris.index_of(uri);
        if j != i {
            if j < i {
                assert(after.uris[j] != after.uris[i]);
            } else {
                assert(after.uris[i] != after.uris[j]);
            }
        }
    }
}

} // verus!
