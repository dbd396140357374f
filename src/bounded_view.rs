use vstd::prelude::*;
use vstd::slice::slice_subrange;

use crate::text_buffer::TextBuffer;
use crate::token::{lemma_token_end_is_first_whitespace, is_whitespace, token_end, token_end_of};

verus! {

/// Why a view could not be made or read.
#[derive(Clone, Copy, Debug, PartialEq, Eq, Structural)]
pub enum ViewError {
    /// The range does not satisfy `start <= end <= length`.
    OutOfRange,
    /// The buffer was mutated after the view was made.
    StaleView,
}

/// A read-only window `[start, end)` into a `TextBuffer`, stamped with the
/// buffer's version at the moment it was made.
///
/// The view holds no borrow; each read compares the stamp with the buffer's
/// current version and refuses to read once the buffer has been mutated.
#[derive(Clone, Copy, Debug, PartialEq, Eq, Structural)]
pub struct BufferView {
    start: usize,
    end: usize,
    stamp: u64,
}

impl BufferView {
    pub closed spec fn spec_start(&self) -> usize {
        self.start
    }

    pub closed spec fn spec_end(&self) -> usize {
        self.end
    }

    pub closed spec fn spec_stamp(&self) -> u64 {
        self.stamp
    }

    /// What reading this view through `buffer` gives.
    pub open spec fn read(&self, buffer: TextBuffer) -> Result<Seq<u8>, ViewError> {
        if self.spec_stamp() != buffer.spec_version() {
            Err(ViewError::StaleView)
        } else if !(self.spec_start() <= self.spec_end() && self.spec_end() <= buffer@.len()) {
            Err(ViewError::OutOfRange)
        } else {
            Ok(buffer@.subrange(self.spec_start() as int, self.spec_end() as int))
        }
    }

    /// First index of the window.
    #[verifier::when_used_as_spec(spec_start)]
    pub fn start(&self) -> (r: usize)
        ensures
            r == self.spec_start(),
    {
        self.start
    }

    /// One past the last index of the window.
    #[verifier::when_used_as_spec(spec_end)]
    pub fn end(&self) -> (r: usize)
        ensures
            r == self.spec_end(),
    {
        self.end
    }

    /// The buffer version this view was made at.
    #[verifier::when_used_as_spec(spec_stamp)]
    pub fn stamp(&self) -> (r: u64)
        ensures
            r == self.spec_stamp(),
    {
        self.stamp
    }

    /// The bytes of `buffer` in this window, or `StaleView` when `buffer`
    /// has been mutated since the view was made.
    pub fn content<'a>(&self, buffer: &'a TextBuffer) -> (r: Result<&'a [u8], ViewError>)
        ensures
            match r {
                Ok(s) => self.read(*buffer) == Ok::<Seq<u8>, ViewError>(s@),
                Err(e) => self.read(*buffer) == Err::<Seq<u8>, ViewError>(e),
            },
    {
        if self.stamp != buffer.version() {
            return Err(ViewError::StaleView);
        }
        let bytes = buffer.as_bytes();
        if !(self.start <= self.end && self.end <= bytes.len()) {
            return Err(ViewError::OutOfRange);
        }
        Ok(slice_subrange(bytes, self.start, self.end))
    }
}

/// The view that `first_token_view` makes of `buffer`.
pub closed spec fn first_token_view_of(buffer: TextBuffer) -> BufferView {
    BufferView { start: 0, end: token_end(buffer@) as usize, stamp: buffer.spec_version() }
}

/// The index where the first whitespace-delimited token of `buffer` ends:
/// the position of its first whitespace byte, or its length when it has none.
///
/// The result is a plain number; it does not follow later changes to the
/// buffer.
pub fn find_first_token_end(buffer: &TextBuffer) -> (r: usize)
    ensures
        r == token_end(buffer@),
        r <= buffer@.len(),
        forall|j: int| 0 <= j < r ==> !is_whitespace(#[trigger] buffer@[j]),
        r < buffer@.len() ==> is_whitespace(buffer@[r as int]),
{
    token_end_of(buffer.as_bytes())
}

/// A view of the first whitespace-delimited token of `buffer`: the window
/// `[0, find_first_token_end(buffer))`, stamped with the buffer's version.
pub fn first_token_view(buffer: &TextBuffer) -> (r: BufferView)
    ensures
        r == first_token_view_of(*buffer),
        r.spec_start() == 0,
        r.spec_end() == token_end(buffer@),
        r.spec_stamp() == buffer.spec_version(),
        r.read(*buffer) == Ok::<Seq<u8>, ViewError>(buffer@.subrange(0, token_end(buffer@) as int)),
{
    let end = token_end_of(buffer.as_bytes());
    BufferView { start: 0, end, stamp: buffer.version() }
}

/// A view of the window `[start, end)` of `buffer`, or `OutOfRange` unless
/// `start <= end <= buffer.len()`. Bounds are never clamped.
pub fn sub_view(buffer: &TextBuffer, start: usize, end: usize) -> (r: Result<BufferView, ViewError>)
    ensures
        r is Ok <==> start <= end && end <= buffer@.len(),
        r is Err ==> r == Err::<BufferView, ViewError>(ViewError::OutOfRange),
        r is Ok ==> {
            &&& r->Ok_0.spec_start() == start
            &&& r->Ok_0.spec_end() == end
            &&& r->Ok_0.spec_stamp() == buffer.spec_version()
            &&& r->Ok_0.read(*buffer) == Ok::<Seq<u8>, ViewError>(
                buffer@.subrange(start as int, end as int),
            )
        },
{
    if start <= end && end <= buffer.len() {
        Ok(BufferView { start, end, stamp: buffer.version() })
    } else {
        Err(ViewError::OutOfRange)
    }
}

/// A buffer without whitespace is one token: its end is the buffer's length.
pub proof fn lemma_no_whitespace_token_end_is_length(buffer: TextBuffer)
    requires
        forall|j: int| 0 <= j < buffer@.len() ==> !is_whitespace(#[trigger] buffer@[j]),
    ensures
        token_end(buffer@) == buffer@.len(),
{
    lemma_token_end_is_first_whitespace(buffer@);
}

/// A buffer that starts with whitespace has an empty first token.
pub proof fn lemma_leading_whitespace_token_end_is_zero(buffer: TextBuffer)
    requires
        buffer@.len() > 0,
        is_whitespace(buffer@[0]),
    ensures
        token_end(buffer@) == 0,
{
}

/// Reading the first token's view gives exactly the buffer's bytes up to
/// the first token's end. (The length bound holds of every buffer that
/// exists, as its bytes are held in memory.)
pub proof fn lemma_first_token_view_reads_prefix(buffer: TextBuffer)
    requires
        buffer@.len() <= usize::MAX,
    ensures
        first_token_view_of(buffer).read(buffer) == Ok::<Seq<u8>, ViewError>(
            buffer@.subrange(0, token_end(buffer@) as int),
        ),
{
    lemma_token_end_is_first_whitespace(buffer@);
}

/// Scanning is repeatable: a buffer with the same contents and version gives
/// the same token end and the same first-token view.
pub proof fn lemma_scans_repeatable(a: TextBuffer, b: TextBuffer)
    requires
        a@ == b@,
        a.spec_version() == b.spec_version(),
    ensures
        token_end(a@) == token_end(b@),
        first_token_view_of(a) == first_token_view_of(b),
{
}

/// Clearing a buffer invalidates its first-token view: every read of it
/// afterwards is refused with `StaleView`.
pub proof fn lemma_clear_invalidates_first_token_view(before: TextBuffer, after: TextBuffer)
    requires
        after.cleared_from(before),
    ensures
        first_token_view_of(before).read(after) == Err::<Seq<u8>, ViewError>(ViewError::StaleView),
{
}

} // verus!
