//! Persists byte blobs by key within one namespace, and stages in-progress
//! writes so that a blob only becomes readable once it is complete.

use vstd::hash_map::StringHashMap;
use vstd::prelude::*;
use vstd::string::StringExecFns;

verus! {

/// An in-progress write: the key being written and the bytes received so
/// far. The staged bytes are invisible to readers until `BlobStore::commit`.
pub struct WriteSink {
    id: String,
    buf: Vec<u8>,
}

impl WriteSink {
    /// The key this sink writes to.
    pub closed spec fn id_view(&self) -> Seq<char> {
        self.id@
    }

    /// The bytes staged so far.
    pub closed spec fn buf_view(&self) -> Seq<u8> {
        self.buf@
    }

    /// The key this sink writes to, for callers that must release it.
    pub fn id(&self) -> (r: &str)
        ensures
            r@ == self.id_view(),
    {
        self.id.as_str()
    }

    /// Appends one chunk of the streamed body to the staged bytes.
    pub fn write_chunk(&mut self, chunk: &[u8])
        ensures
            final(self).id_view() == old(self).id_view(),
            final(self).buf_view() == old(self).buf_view() + chunk@,
    {
        self.buf.extend_from_slice(chunk);
        proof {
            assert(final(self).buf_view() =~= old(self).buf_view() + chunk@);
        }
    }
}

/// The committed blobs of one namespace. Its view maps each stored key id
/// to the exact bytes stored under it.
pub struct BlobStore {
    blobs: StringHashMap<Vec<u8>>,
}

impl View for BlobStore {
    type V = Map<Seq<char>, Seq<u8>>;

    closed spec fn view(&self) -> Map<Seq<char>, Seq<u8>> {
        self.blobs@.map_values(|v: Vec<u8>| v@)
    }
}

impl BlobStore {
    /// A fresh store holds no blobs.
    pub fn new() -> (r: Self)
        ensures
            r@ == Map::<Seq<char>, Seq<u8>>::empty(),
    {
        let r = BlobStore { blobs: StringHashMap::new() };
        proof {
            assert(r@ =~= Map::<Seq<char>, Seq<u8>>::empty());
        }
        r
    }

    /// Opens a staged write for the key. Nothing becomes visible to readers
    /// until the sink is committed.
    pub fn open_for_write(&self, id: &str) -> (sink: WriteSink)
        ensures
            sink.id_view() == id@,
            sink.buf_view() == Seq::<u8>::empty(),
    {
        WriteSink { id: String::from_str(id), buf: Vec::new() }
    }

    /// Finalizes a staged write: the staged bytes become the blob stored
    /// under the sink's key, replacing any previous blob there in full.
    pub fn commit(&mut self, sink: WriteSink)
        ensures
            final(self)@ == old(self)@.insert(sink.id_view(), sink.buf_view()),
    {
        let WriteSink { id, buf } = sink;
        self.blobs.insert(id, buf);
        proof {
            assert(final(self)@ =~= old(self)@.insert(sink.id_view(), sink.buf_view()));
        }
    }

    /// Returns the complete bytes stored under the key, or `None` when no
    /// blob exists there.
    pub fn open_for_read(&self, id: &str) -> (r: Option<Vec<u8>>)
        ensures
            match r {
                Some(bytes) => self@.dom().contains(id@) && bytes@ == self@[id@],
                None => !self@.dom().contains(id@),
            },
    {
        match self.blobs.get(id) {
            Some(bytes) => {
                let copy = bytes.clone();
                proof {
                    assert(copy@ =~= bytes@);
                }
                Some(copy)
            },
            None => None,
        }
    }
}

} // verus!
