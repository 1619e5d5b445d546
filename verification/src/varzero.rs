//! A borrowed, variable-width list read directly out of one byte buffer.
//!
//! The buffer layout is: a four-byte little-endian element count, one
//! four-byte little-endian start offset per element, and then the
//! elements' bytes back to back.  Element `i` spans from its start offset
//! to the next element's start offset, the last element to the end of the
//! byte region.  Parsing validates every span once; reading afterwards
//! needs no further checks.

use vstd::prelude::*;
use vstd::slice::{slice_subrange, slice_to_vec};

verus! {

/// An error from validating a byte buffer.
#[derive(Debug, Copy, Clone, PartialEq, Eq, Structural)]
pub enum ZeroVecError {
    /// The buffer does not parse as a variable-width list.
    VarZeroVecFormatError,
}

/// The little-endian 32-bit value at a position of a byte sequence.
pub open spec fn spec_u32_le(s: Seq<u8>, pos: int) -> int {
    s[pos] + 256 * s[pos + 1] + 65536 * s[pos + 2] + 16777216 * s[pos + 3]
}

/// Reads the little-endian 32-bit value at a position.
fn read_u32_le(s: &[u8], pos: usize) -> (r: u32)
    requires
        pos + 4 <= s@.len(),
    ensures
        r == spec_u32_le(s@, pos as int),
{
    let b0 = s[pos] as u32;
    let b1 = s[pos + 1] as u32;
    let b2 = s[pos + 2] as u32;
    let b3 = s[pos + 3] as u32;
    b0 + 256 * b1 + 65536 * b2 + 16777216 * b3
}

/// A fully borrowed variable-width list: the offset region, the element
/// region, and the whole original buffer, all referring into one slice.
#[derive(Debug, Copy, Clone)]
pub struct VarZeroVecBorrowed<'a> {
    /// The four-byte start offsets, one per element.
    pub indices: &'a [u8],
    /// The elements' bytes, back to back.
    pub things: &'a [u8],
    /// The original buffer this was parsed from.
    pub entire_slice: &'a [u8],
}

impl<'a> VarZeroVecBorrowed<'a> {
    /// How many elements the list holds.
    pub open spec fn spec_len(self) -> int {
        self.indices@.len() as int / 4
    }

    /// The start offset of an element.
    pub open spec fn spec_start(self, i: int) -> int {
        spec_u32_le(self.indices@, 4 * i)
    }

    /// The end offset of an element: the next element's start, or the
    /// end of the element region for the last element.
    pub open spec fn spec_end(self, i: int) -> int {
        if i + 1 < self.spec_len() {
            self.spec_start(i + 1)
        } else {
            self.things@.len() as int
        }
    }

    /// The bytes of an element.
    pub open spec fn spec_element(self, i: int) -> Seq<u8> {
        self.things@.subrange(self.spec_start(i), self.spec_end(i))
    }

    /// The internal invariant: the offset region is whole offsets, and
    /// every element's span lies within the element region.
    pub open spec fn wf(self) -> bool {
        &&& self.indices@.len() % 4 == 0
        &&& forall|i: int|
            0 <= i < self.spec_len() ==> 0 <= #[trigger] self.spec_start(i) <= self.spec_end(i)
                <= self.things@.len()
    }

    /// Whether a byte buffer parses as a variable-width list: it is
    /// empty, or it holds its count, all its offsets, and only valid
    /// element spans.
    pub open spec fn spec_parses(slice: Seq<u8>) -> bool {
        ||| slice.len() == 0
        ||| {
            let n = spec_u32_le(slice, 0);
            &&& slice.len() >= 4
            &&& 4 + 4 * n <= slice.len()
            &&& {
                let indices = slice.subrange(4, 4 + 4 * n);
                let things = slice.subrange(4 + 4 * n, slice.len() as int);
                forall|i: int|
                    0 <= i < n ==> 0 <= #[trigger] spec_u32_le(indices, 4 * i) <= (if i + 1 < n {
                        spec_u32_le(indices, 4 * i + 4)
                    } else {
                        things.len() as int
                    }) <= things.len()
            }
        }
    }

    /// An empty list.
    pub fn new() -> (r: Self)
        ensures
            r.wf(),
            r.spec_len() == 0,
            r.entire_slice@.len() == 0,
    {
        let empty: &'a [u8] = &[];
        VarZeroVecBorrowed { indices: empty, things: empty, entire_slice: empty }
    }

    /// Parses a byte buffer, validating the invariants once: the buffer
    /// must hold its count and offsets, and every element span must lie
    /// within the element region.  Exactly the buffers accepted by
    /// [`VarZeroVecBorrowed::spec_parses`] parse.
    pub fn parse_byte_slice(slice: &'a [u8]) -> (r: Result<Self, ZeroVecError>)
        ensures
            match r {
                Ok(v) => {
                    &&& Self::spec_parses(slice@)
                    &&& v.wf()
                    &&& v.entire_slice@ == slice@
                    &&& (slice@.len() == 0 ==> v.spec_len() == 0)
                    &&& (slice@.len() > 0 ==> {
                        &&& v.spec_len() == spec_u32_le(slice@, 0)
                        &&& v.indices@ == slice@.subrange(4, 4 + 4 * v.spec_len())
                        &&& v.things@ == slice@.subrange(
                            4 + 4 * v.spec_len(),
                            slice@.len() as int,
                        )
                    })
                },
                Err(_) => !Self::spec_parses(slice@),
            },
    {
        if slice.is_empty() {
            return Ok(
                VarZeroVecBorrowed { indices: slice, things: slice, entire_slice: slice },
            );
        }
        if slice.len() < 4 {
            return Err(ZeroVecError::VarZeroVecFormatError);
        }
        let len = read_u32_le(slice, 0) as usize;
        if len > (slice.len() - 4) / 4 {
            proof {
                assert(4 + 4 * (len as int) > slice@.len());
            }
            return Err(ZeroVecError::VarZeroVecFormatError);
        }
        let indices_end: usize = 4 + 4 * len;
        let indices = slice_subrange(slice, 4, indices_end);
        let things = slice_subrange(slice, indices_end, slice.len());
        let out = VarZeroVecBorrowed { indices, things, entire_slice: slice };
        proof {
            assert(out.spec_len() == len as int);
        }
        let mut i: usize = 0;
        while i < len
            invariant
                i <= len,
                out.spec_len() == len as int,
                out.indices@.len() == 4 * len,
                out.indices@ == slice@.subrange(4, 4 + 4 * (len as int)),
                out.things@ == slice@.subrange(4 + 4 * (len as int), slice@.len() as int),
                out.entire_slice@ == slice@,
                indices@ == out.indices@,
                things@ == out.things@,
                slice@.len() >= 4,
                4 + 4 * (len as int) <= slice@.len(),
                len as int == spec_u32_le(slice@, 0),
                4 * (len as int) + 4 <= usize::MAX as int,
                forall|j: int|
                    0 <= j < i ==> 0 <= #[trigger] out.spec_start(j) <= out.spec_end(j)
                        <= out.things@.len(),
            decreases len - i,
        {
            let start = read_u32_le(indices, 4 * i) as usize;
            let end: usize = if i + 1 < len {
                read_u32_le(indices, 4 * i + 4) as usize
            } else {
                things.len()
            };
            if start > end || end > things.len() {
                proof {
                    assert(out.spec_start(i as int) == start as int);
                    assert(out.spec_end(i as int) == end as int);
                    assert(!Self::spec_parses(slice@));
                }
                return Err(ZeroVecError::VarZeroVecFormatError);
            }
            proof {
                assert(out.spec_start(i as int) == start as int);
                assert(out.spec_end(i as int) == end as int);
            }
            i += 1;
        }
        proof {
            let n = spec_u32_le(slice@, 0);
            let spec_indices = slice@.subrange(4, 4 + 4 * n);
            let spec_things = slice@.subrange(4 + 4 * n, slice@.len() as int);
            assert(spec_indices == out.indices@);
            assert(spec_things == out.things@);
            assert forall|j: int|
                0 <= j < n implies 0 <= #[trigger] spec_u32_le(spec_indices, 4 * j) <= (if j + 1
                < n {
                spec_u32_le(spec_indices, 4 * j + 4)
            } else {
                spec_things.len() as int
            }) <= spec_things.len() by {
                assert(out.spec_start(j) == spec_u32_le(spec_indices, 4 * j));
                assert(0 <= out.spec_start(j) <= out.spec_end(j) <= out.things@.len());
                if j + 1 < n {
                    assert(out.spec_end(j) == out.spec_start(j + 1));
                    assert(spec_u32_le(spec_indices, 4 * j + 4) == out.spec_start(j + 1));
                    assert(0 <= out.spec_start(j + 1) <= out.spec_end(j + 1)
                        <= out.things@.len());
                } else {
                    assert(out.spec_end(j) == out.things@.len());
                }
            }
            assert(Self::spec_parses(slice@));
        }
        Ok(out)
    }

    /// The number of elements.
    pub fn len(self) -> (r: usize)
        ensures
            r == self.spec_len(),
    {
        self.indices.len() / 4
    }

    /// Whether the list holds no elements.
    pub fn is_empty(self) -> (r: bool)
        requires
            self.wf(),
        ensures
            r == (self.spec_len() == 0),
    {
        self.indices.len() == 0
    }

    /// The entire backing buffer.
    pub fn entire_slice(self) -> (r: &'a [u8])
        ensures
            r@ == self.entire_slice@,
    {
        self.entire_slice
    }

    /// The bytes of the element at an index, or nothing out of bounds.
    pub fn get(self, idx: usize) -> (r: Option<&'a [u8]>)
        requires
            self.wf(),
        ensures
            match r {
                Some(element) => idx < self.spec_len() && element@ == self.spec_element(
                    idx as int,
                ),
                None => idx >= self.spec_len(),
            },
    {
        let len = self.indices.len() / 4;
        if idx >= len {
            return None;
        }
        let start = read_u32_le(self.indices, 4 * idx) as usize;
        let end: usize = if idx + 1 < len {
            read_u32_le(self.indices, 4 * idx + 4) as usize
        } else {
            self.things.len()
        };
        proof {
            assert(self.spec_start(idx as int) == start as int);
            assert(self.spec_end(idx as int) == end as int);
        }
        Some(slice_subrange(self.things, start, end))
    }

    /// The elements copied out into owned byte vectors, in order.
    pub fn to_vec(self) -> (r: Vec<Vec<u8>>)
        requires
            self.wf(),
        ensures
            r@.len() == self.spec_len(),
            forall|i: int| 0 <= i < r@.len() ==> #[trigger] r@[i]@ == self.spec_element(i),
    {
        let len = self.indices.len() / 4;
        let mut out: Vec<Vec<u8>> = Vec::new();
        let mut i: usize = 0;
        while i < len
            invariant
                i <= len,
                self.wf(),
                len == self.spec_len(),
                out@.len() == i as int,
                forall|j: int| 0 <= j < i ==> #[trigger] out@[j]@ == self.spec_element(j),
            decreases len - i,
        {
            let element = match self.get(i) {
                Some(e) => e,
                None => {
                    proof {
                        assert(false);
                    }
                    &[]
                },
            };
            out.push(slice_to_vec(element));
            i += 1;
        }
        out
    }
}

} // verus!
