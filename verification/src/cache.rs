//! The two content-keyed namespaces of the cache server. Each namespace has
//! its own handler, registry and store; they share no state, and a request
//! only ever touches the namespace it names.

use crate::handler::{spec_claim, spec_commit, spec_get, CacheHandler, CacheModel, GetResponse,
    PutStart};
use crate::store::WriteSink;
use vstd::prelude::*;

verus! {

/// The two namespaces. The core treats them identically; they only select
/// which handler a request goes to.
#[derive(Clone, Copy, Debug, PartialEq, Eq, Structural)]
pub enum CacheNamespace {
    /// Maps an action's identity hash to its cached result blob.
    ActionCache,
    /// Maps a content hash to the raw bytes it identifies.
    ContentAddressableStore,
}

/// The other namespace than the one given.
pub open spec fn other_namespace(ns: CacheNamespace) -> CacheNamespace {
    match ns {
        CacheNamespace::ActionCache => CacheNamespace::ContentAddressableStore,
        CacheNamespace::ContentAddressableStore => CacheNamespace::ActionCache,
    }
}

/// Mathematical model of the whole cache: one `CacheModel` per namespace.
#[verifier::ext_equal]
pub struct CacheView {
    pub ac: CacheModel,
    pub cas: CacheModel,
}

/// The model of one namespace within the whole cache's model.
pub open spec fn namespace_model(v: CacheView, ns: CacheNamespace) -> CacheModel {
    match ns {
        CacheNamespace::ActionCache => v.ac,
        CacheNamespace::ContentAddressableStore => v.cas,
    }
}

/// Model of a whole completed PUT against one namespace: claim, then commit
/// of the streamed bytes, leaving the other namespace untouched.
pub open spec fn spec_namespace_put(
    v: CacheView,
    ns: CacheNamespace,
    id: Seq<char>,
    bytes: Seq<u8>,
) -> CacheView {
    match ns {
        CacheNamespace::ActionCache => CacheView {
            ac: spec_commit(spec_claim(v.ac, id), id, bytes),
            cas: v.cas,
        },
        CacheNamespace::ContentAddressableStore => CacheView {
            ac: v.ac,
            cas: spec_commit(spec_claim(v.cas, id), id, bytes),
        },
    }
}

/// Both namespaces of the cache. Requests name a namespace and are routed to
/// its handler; the other namespace's state never changes.
pub struct Cache {
    ac: CacheHandler,
    cas: CacheHandler,
}

impl View for Cache {
    type V = CacheView;

    closed spec fn view(&self) -> CacheView {
        CacheView { ac: self.ac@, cas: self.cas@ }
    }
}

impl Cache {
    /// A fresh cache: both namespaces empty, nothing in flight.
    pub fn new() -> (r: Self)
        ensures
            r@.ac.in_flight == Set::<Seq<char>>::empty(),
            r@.ac.blobs == Map::<Seq<char>, Seq<u8>>::empty(),
            r@.cas.in_flight == Set::<Seq<char>>::empty(),
            r@.cas.blobs == Map::<Seq<char>, Seq<u8>>::empty(),
    {
        Cache { ac: CacheHandler::new(), cas: CacheHandler::new() }
    }

    /// Read-only test of whether a write for the key is in progress in the
    /// named namespace.
    pub fn is_in_flight(&self, ns: CacheNamespace, id: &str) -> (r: bool)
        ensures
            r == namespace_model(self@, ns).in_flight.contains(id@),
    {
        match ns {
            CacheNamespace::ActionCache => self.ac.is_in_flight(id),
            CacheNamespace::ContentAddressableStore => self.cas.is_in_flight(id),
        }
    }

    /// GET against the named namespace; the other namespace plays no part.
    pub fn handle_get(&self, ns: CacheNamespace, id: &str) -> (r: GetResponse)
        ensures
            match r {
                GetResponse::Hit(bytes) => spec_get(namespace_model(self@, ns), id@) == Some(
                    bytes@,
                ),
                GetResponse::NotFound => spec_get(namespace_model(self@, ns), id@) is None,
            },
    {
        match ns {
            CacheNamespace::ActionCache => self.ac.handle_get(id),
            CacheNamespace::ContentAddressableStore => self.cas.handle_get(id),
        }
    }

    /// PUT, first step, against the named namespace: claim the key or
    /// collapse into the write already in progress. The other namespace is
    /// untouched either way.
    pub fn put_begin(&mut self, ns: CacheNamespace, id: &str) -> (r: PutStart)
        ensures
            namespace_model(final(self)@, other_namespace(ns)) == namespace_model(
                old(self)@,
                other_namespace(ns),
            ),
            match r {
                PutStart::Collapsed => {
                    &&& namespace_model(old(self)@, ns).in_flight.contains(id@)
                    &&& final(self)@ == old(self)@
                },
                PutStart::Writing(sink) => {
                    &&& !namespace_model(old(self)@, ns).in_flight.contains(id@)
                    &&& namespace_model(final(self)@, ns) == spec_claim(
                        namespace_model(old(self)@, ns),
                        id@,
                    )
                    &&& sink.id_view() == id@
                    &&& sink.buf_view() == Seq::<u8>::empty()
                },
            },
    {
        match ns {
            CacheNamespace::ActionCache => self.ac.put_begin(id),
            CacheNamespace::ContentAddressableStore => self.cas.put_begin(id),
        }
    }

    /// PUT, successful finish, against the named namespace: the streamed
    /// bytes become the blob under the sink's key and the key is released.
    /// The other namespace is untouched.
    pub fn put_commit(&mut self, ns: CacheNamespace, sink: WriteSink)
        ensures
            namespace_model(final(self)@, ns) == spec_commit(
                namespace_model(old(self)@, ns),
                sink.id_view(),
                sink.buf_view(),
            ),
            namespace_model(final(self)@, other_namespace(ns)) == namespace_model(
                old(self)@,
                other_namespace(ns),
            ),
    {
        match ns {
            CacheNamespace::ActionCache => self.ac.put_commit(sink),
            CacheNamespace::ContentAddressableStore => self.cas.put_commit(sink),
        }
    }

    /// PUT, failure exit, against the named namespace: the key is released,
    /// nothing is stored, and the other namespace is untouched.
    pub fn put_fail(&mut self, ns: CacheNamespace, sink: WriteSink)
        ensures
            namespace_model(final(self)@, ns) == crate::handler::spec_release(
                namespace_model(old(self)@, ns),
                sink.id_view(),
            ),
            namespace_model(final(self)@, other_namespace(ns)) == namespace_model(
                old(self)@,
                other_namespace(ns),
            ),
    {
        match ns {
            CacheNamespace::ActionCache => self.ac.put_fail(sink),
            CacheNamespace::ContentAddressableStore => self.cas.put_fail(sink),
        }
    }
}

/// Namespace isolation: a completed PUT against one namespace leaves the
/// other namespace's state exactly as it was; in particular, a GET of the
/// same id against the other namespace still returns `NotFound` when that
/// namespace never stored the id and is not writing it.
pub proof fn law_namespace_isolation(
    v: CacheView,
    ns: CacheNamespace,
    id: Seq<char>,
    bytes: Seq<u8>,
)
    ensures
        namespace_model(spec_namespace_put(v, ns, id, bytes), other_namespace(ns))
            == namespace_model(v, other_namespace(ns)),
        (!namespace_model(v, other_namespace(ns)).in_flight.contains(id)
            && !namespace_model(v, other_namespace(ns)).blobs.dom().contains(id)) ==> (spec_get(
            namespace_model(spec_namespace_put(v, ns, id, bytes), other_namespace(ns)),
            id,
        ) is None),
{
}

} // verus!
