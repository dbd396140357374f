use vstd::prelude::*;
use vstd::slice::slice_to_vec;
use vstd::string::StringSliceAdditionalSpecFns;

verus! {

/// An owned, growable sequence of bytes that counts its own mutations.
///
/// Every mutating method advances the version by one, so a view stamped with
/// an earlier version can tell that the contents it denotes may be gone.
pub struct TextBuffer {
    bytes: Vec<u8>,
    version: u64,
}

impl View for TextBuffer {
    type V = Seq<u8>;

    closed spec fn view(&self) -> Seq<u8> {
        self.bytes@
    }
}

impl TextBuffer {
    /// The number of mutations made to this buffer since it was created.
    pub closed spec fn spec_version(&self) -> u64 {
        self.version
    }

    /// `self` is `before` after a `clear`: empty, one version further on.
    pub open spec fn cleared_from(&self, before: TextBuffer) -> bool {
        &&& self@ == Seq::<u8>::empty()
        &&& self.spec_version() == before.spec_version() + 1
    }

    /// An empty buffer at version zero.
    pub fn new() -> (r: TextBuffer)
        ensures
            r@ == Seq::<u8>::empty(),
            r.spec_version() == 0,
    {
        TextBuffer { bytes: Vec::new(), version: 0 }
    }

    /// A buffer at version zero that holds `bytes`.
    pub fn from_bytes(bytes: Vec<u8>) -> (r: TextBuffer)
        ensures
            r@ == bytes@,
            r.spec_version() == 0,
    {
        TextBuffer { bytes, version: 0 }
    }

    /// A buffer at version zero that holds the UTF-8 encoding of `text`.
    pub fn from_text(text: &str) -> (r: TextBuffer)
        ensures
            r@ == text.spec_bytes(),
            r.spec_version() == 0,
    {
        TextBuffer { bytes: slice_to_vec(text.as_bytes()), version: 0 }
    }

    /// The number of mutations made to this buffer since it was created.
    #[verifier::when_used_as_spec(spec_version)]
    pub fn version(&self) -> (r: u64)
        ensures
            r == self.spec_version(),
    {
        self.version
    }

    /// The number of bytes held.
    pub fn len(&self) -> (r: usize)
        ensures
            r == self@.len(),
    {
        self.bytes.len()
    }

    /// The bytes held, borrowed.
    pub fn as_bytes(&self) -> (r: &[u8])
        ensures
            r@ == self@,
    {
        self.bytes.as_slice()
    }

    /// Removes every byte.
    pub fn clear(&mut self)
        requires
            old(self).spec_version() < u64::MAX,
        ensures
            final(self).cleared_from(*old(self)),
    {
        self.bytes.clear();
        self.version = self.version + 1;
    }

    /// Keeps the first `len` bytes, or all of them when there are fewer.
    pub fn truncate(&mut self, len: usize)
        requires
            old(self).spec_version() < u64::MAX,
        ensures
            len <= old(self)@.len() ==> final(self)@ == old(self)@.subrange(0, len as int),
            len > old(self)@.len() ==> final(self)@ == old(self)@,
            final(self).spec_version() == old(self).spec_version() + 1,
    {
        self.bytes.truncate(len);
        self.version = self.version + 1;
    }

    /// Appends the UTF-8 encoding of `text`.
    pub fn push_str(&mut self, text: &str)
        requires
            old(self).spec_version() < u64::MAX,
        ensures
            final(self)@ == old(self)@ + text.spec_bytes(),
            final(self).spec_version() == old(self).spec_version() + 1,
    {
        let extra = text.as_bytes();
        let n = extra.len();
        let mut i: usize = 0;
        while i < n
            invariant
                n == extra@.len(),
                i <= n,
                extra@ == text.spec_bytes(),
                self.version == old(self).version,
                self.bytes@ == old(self).bytes@ + extra@.subrange(0, i as int),
            decreases n - i,
        {
            self.bytes.push(extra[i]);
            assert(extra@.subrange(0, i + 1) =~= extra@.subrange(0, i as int).push(extra@[i as int]));
            i = i + 1;
        }
        assert(extra@.subrange(0, n as int) =~= extra@);
        self.version = self.version + 1;
    }
}

} // verus!
