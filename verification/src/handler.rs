//! Per-key cache handler for one namespace: orchestrates GET and PUT against
//! the in-flight registry and the blob store, collapsing concurrent duplicate
//! uploads into one winner and masking reads while a write is in progress.

use crate::registry::{ClaimOutcome, InFlightRegistry};
use crate::store::{BlobStore, WriteSink};
use vstd::prelude::*;

verus! {

/// Mathematical model of one namespace's cache: which keys are being
/// written, and which blobs are durably stored.
#[verifier::ext_equal]
pub struct CacheModel {
    pub in_flight: Set<Seq<char>>,
    pub blobs: Map<Seq<char>, Seq<u8>>,
}

/// What a GET returns: the blob stored under the key, or `None` when the key
/// is absent or currently being written (cache-miss semantics either way).
pub open spec fn spec_get(m: CacheModel, id: Seq<char>) -> Option<Seq<u8>> {
    if m.in_flight.contains(id) {
        None
    } else if m.blobs.dom().contains(id) {
        Some(m.blobs[id])
    } else {
        None
    }
}

/// Model step of a successful claim: the key becomes in-flight; storage is
/// untouched.
pub open spec fn spec_claim(m: CacheModel, id: Seq<char>) -> CacheModel {
    CacheModel { in_flight: m.in_flight.insert(id), blobs: m.blobs }
}

/// Model step of a completed write: the staged bytes become the blob under
/// the key, and the key is released.
pub open spec fn spec_commit(m: CacheModel, id: Seq<char>, bytes: Seq<u8>) -> CacheModel {
    CacheModel { in_flight: m.in_flight.remove(id), blobs: m.blobs.insert(id, bytes) }
}

/// Model step of an abandoned write: the key is released and storage is
/// untouched.
pub open spec fn spec_release(m: CacheModel, id: Seq<char>) -> CacheModel {
    CacheModel { in_flight: m.in_flight.remove(id), blobs: m.blobs }
}

/// Response to a GET request.
#[derive(Debug, PartialEq, Eq)]
pub enum GetResponse {
    /// The complete blob stored under the key.
    Hit(Vec<u8>),
    /// No blob is visible under the key.
    NotFound,
}

/// How a PUT request starts.
pub enum PutStart {
    /// Another write for the key is in progress; the request is answered
    /// as successful without touching storage.
    Collapsed,
    /// The caller is the sole writer and streams the body into this sink.
    Writing(WriteSink),
}

/// One namespace's cache handler. Its view is the `CacheModel` of that
/// namespace alone; two handlers share no state.
pub struct CacheHandler {
    registry: InFlightRegistry,
    store: BlobStore,
}

impl View for CacheHandler {
    type V = CacheModel;

    closed spec fn view(&self) -> CacheModel {
        CacheModel { in_flight: self.registry@, blobs: self.store@ }
    }
}

impl CacheHandler {
    /// A fresh handler: nothing in flight, nothing stored.
    pub fn new() -> (r: Self)
        ensures
            r@.in_flight == Set::<Seq<char>>::empty(),
            r@.blobs == Map::<Seq<char>, Seq<u8>>::empty(),
    {
        CacheHandler { registry: InFlightRegistry::new(), store: BlobStore::new() }
    }

    /// Read-only test of whether a write for the key is in progress.
    pub fn is_in_flight(&self, id: &str) -> (r: bool)
        ensures
            r == self@.in_flight.contains(id@),
    {
        self.registry.is_in_flight(id)
    }

    /// GET: a key being written is treated as absent; otherwise the stored
    /// blob is returned in full, or `NotFound` on a miss.
    pub fn handle_get(&self, id: &str) -> (r: GetResponse)
        ensures
            match r {
                GetResponse::Hit(bytes) => spec_get(self@, id@) == Some(bytes@),
                GetResponse::NotFound => spec_get(self@, id@) is None,
            },
    {
        if self.registry.is_in_flight(id) {
            GetResponse::NotFound
        } else {
            match self.store.open_for_read(id) {
                Some(bytes) => GetResponse::Hit(bytes),
                None => GetResponse::NotFound,
            }
        }
    }

    /// PUT, first step: claims the key atomically. A concurrent duplicate
    /// finds the key in flight and collapses — it is answered as successful
    /// and the handler's state is unchanged. The sole winner gets a sink to
    /// stream the body into.
    pub fn put_begin(&mut self, id: &str) -> (r: PutStart)
        ensures
            match r {
                PutStart::Collapsed => {
                    &&& old(self)@.in_flight.contains(id@)
                    &&& final(self)@ == old(self)@
                },
                PutStart::Writing(sink) => {
                    &&& !old(self)@.in_flight.contains(id@)
                    &&& final(self)@ == spec_claim(old(self)@, id@)
                    &&& sink.id_view() == id@
                    &&& sink.buf_view() == Seq::<u8>::empty()
                },
            },
    {
        match self.registry.try_claim(id) {
            ClaimOutcome::AlreadyInFlight => {
                proof {
                    assert(self@ =~= old(self)@);
                }
                PutStart::Collapsed
            },
            ClaimOutcome::Claimed => {
                proof {
                    assert(self@ =~= spec_claim(old(self)@, id@));
                }
                PutStart::Writing(self.store.open_for_write(id))
            },
        }
    }

    /// PUT, successful finish: the streamed bytes become the blob under the
    /// sink's key, and the key is released in the same step.
    pub fn put_commit(&mut self, sink: WriteSink)
        ensures
            final(self)@ == spec_commit(old(self)@, sink.id_view(), sink.buf_view()),
    {
        let ghost sink_id = sink.id_view();
        let ghost sink_buf = sink.buf_view();
        self.registry.release(sink.id());
        self.store.commit(sink);
        proof {
            assert(self@ =~= spec_commit(old(self)@, sink_id, sink_buf));
        }
    }

    /// PUT, failure exit: on a storage or body-stream error the key is
    /// released unconditionally — it is immediately eligible for a fresh
    /// write — and the staged bytes are discarded, never stored.
    pub fn put_fail(&mut self, sink: WriteSink)
        ensures
            final(self)@ == spec_release(old(self)@, sink.id_view()),
    {
        self.registry.release(sink.id());
        proof {
            assert(self@ =~= spec_release(old(self)@, sink.id_view()));
        }
    }
}

/// Claim exclusivity: once a key is claimed, it is in flight, so any further
/// claim attempt before its release collapses instead of writing; storage is
/// untouched by the claim itself. Both requests are answered as successful.
pub proof fn law_claim_exclusivity(m: CacheModel, id: Seq<char>)
    ensures
        spec_claim(m, id).in_flight.contains(id),
        spec_claim(m, id).blobs == m.blobs,
{
}

/// In-flight masking: while a key is being written, a GET of it returns
/// `NotFound`, even when an earlier completed blob exists under the key.
pub proof fn law_in_flight_masking(m: CacheModel, id: Seq<char>)
    requires
        m.in_flight.contains(id),
    ensures
        spec_get(m, id) is None,
{
}

/// Round trip: a claim followed by a committed write of `bytes` leaves the
/// key readable, and a GET of it returns exactly `bytes`.
pub proof fn law_round_trip(m: CacheModel, id: Seq<char>, bytes: Seq<u8>)
    ensures
        spec_get(spec_commit(spec_claim(m, id), id, bytes), id) == Some(bytes),
{
}

/// Release on failure: a claim followed by a failure exit leaves the key no
/// longer in flight — a subsequent claim of it succeeds and performs a real
/// write — and leaves storage exactly as it was.
pub proof fn law_release_on_failure(m: CacheModel, id: Seq<char>)
    ensures
        !spec_release(spec_claim(m, id), id).in_flight.contains(id),
        spec_release(spec_claim(m, id), id).blobs == m.blobs,
{
}

/// Miss on unknown key: a GET of a key that is not in flight and was never
/// written returns `NotFound`.
pub proof fn law_miss_on_unknown_key(m: CacheModel, id: Seq<char>)
    requires
        !m.in_flight.contains(id),
        !m.blobs.dom().contains(id),
    ensures
        spec_get(m, id) is None,
{
}

} // verus!
