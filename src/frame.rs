//! The markers that open and close each frame.
use vstd::prelude::*;

use crate::reader::{get_i32, get_u32, i32_at, u32_at};
use crate::utils::{ParseError, Version};

verus! {

/// The marker that opens a frame.
#[derive(Debug, Clone, Copy, PartialEq, Eq, Default)]
pub struct FrameStart {
    pub frame_idx: i32,
    /// Match-wide frame counter; added v3.10.0.
    pub frame_counter: Option<u32>,
}

/// The marker that closes a frame.
#[derive(Debug, Clone, Copy, PartialEq, Eq, Default)]
pub struct FrameEnd {
    pub frame_idx: i32,
    /// The latest frame that can no longer be rolled back; added v3.7.0.
    pub latest_finalized: Option<i32>,
}

/// Bytes that a frame-start record takes under version `v`.
pub open spec fn frame_start_size(v: Version) -> int {
    if v.spec_at_least(3, 10, 0) {
        12
    } else {
        8
    }
}

/// The frame-start record that the bytes `s` hold under version `v`.
pub open spec fn spec_frame_start(s: Seq<u8>, v: Version) -> FrameStart {
    FrameStart {
        frame_idx: i32_at(s, 0),
        frame_counter: if v.spec_at_least(3, 10, 0) {
            Some(u32_at(s, 8))
        } else {
            None
        },
    }
}

/// Bytes that a frame-end record takes under version `v`.
pub open spec fn frame_end_size(v: Version) -> int {
    if v.spec_at_least(3, 7, 0) {
        8
    } else {
        4
    }
}

/// The frame-end record that the bytes `s` hold under version `v`.
pub open spec fn spec_frame_end(s: Seq<u8>, v: Version) -> FrameEnd {
    FrameEnd {
        frame_idx: i32_at(s, 0),
        latest_finalized: if v.spec_at_least(3, 7, 0) {
            Some(i32_at(s, 4))
        } else {
            None
        },
    }
}

impl FrameStart {
    /// Decodes a frame-start record from its payload; the random seed that
    /// follows the frame index is read past.
    pub fn new(stream: &[u8], version: Version) -> (r: Result<FrameStart, ParseError>)
        ensures
            r is Ok <==> stream@.len() >= frame_start_size(version),
            r is Ok ==> r->Ok_0 == spec_frame_start(stream@, version),
            r is Err ==> r->Err_0 == ParseError::UnexpectedEnd,
    {
        if stream.len() < 8 {
            return Err(ParseError::UnexpectedEnd);
        }
        let frame_idx = get_i32(stream, 0);
        let frame_counter = if version.at_least(3, 10, 0) {
            if stream.len() < 12 {
                return Err(ParseError::UnexpectedEnd);
            }
            Some(get_u32(stream, 8))
        } else {
            None
        };
        Ok(FrameStart { frame_idx, frame_counter })
    }
}

impl FrameEnd {
    /// Decodes a frame-end record from its payload.
    pub fn new(stream: &[u8], version: Version) -> (r: Result<FrameEnd, ParseError>)
        ensures
            r is Ok <==> stream@.len() >= frame_end_size(version),
            r is Ok ==> r->Ok_0 == spec_frame_end(stream@, version),
            r is Err ==> r->Err_0 == ParseError::UnexpectedEnd,
    {
        if stream.len() < 4 {
            return Err(ParseError::UnexpectedEnd);
        }
        let frame_idx = get_i32(stream, 0);
        let latest_finalized = if version.at_least(3, 7, 0) {
            if stream.len() < 8 {
                return Err(ParseError::UnexpectedEnd);
            }
            Some(get_i32(stream, 4))
        } else {
            None
        };
        Ok(FrameEnd { frame_idx, latest_finalized })
    }
}

/// Two byte strings that agree on their first `n` bytes.
pub open spec fn same_prefix(a: Seq<u8>, b: Seq<u8>, n: int) -> bool {
    &&& n <= a.len()
    &&& n <= b.len()
    &&& forall|i: int| 0 <= i < n ==> a[i] == b[i]
}

/// A frame-start record is read from exactly the bytes that its version
/// implies: payloads that agree on those bytes decode alike, whatever follows.
pub proof fn lemma_frame_start_window(a: Seq<u8>, b: Seq<u8>, v: Version)
    requires
        same_prefix(a, b, frame_start_size(v)),
    ensures
        spec_frame_start(a, v) == spec_frame_start(b, v),
{
    assert(a[0] == b[0] && a[1] == b[1] && a[2] == b[2] && a[3] == b[3]);
    if v.spec_at_least(3, 10, 0) {
        assert(a[8] == b[8] && a[9] == b[9] && a[10] == b[10] && a[11] == b[11]);
    }
}

/// A frame-end record is read from exactly the bytes that its version
/// implies: payloads that agree on those bytes decode alike, whatever follows.
pub proof fn lemma_frame_end_window(a: Seq<u8>, b: Seq<u8>, v: Version)
    requires
        same_prefix(a, b, frame_end_size(v)),
    ensures
        spec_frame_end(a, v) == spec_frame_end(b, v),
{
    assert(a[0] == b[0] && a[1] == b[1] && a[2] == b[2] && a[3] == b[3]);
    if v.spec_at_least(3, 7, 0) {
        assert(a[4] == b[4] && a[5] == b[5] && a[6] == b[6] && a[7] == b[7]);
    }
}

} // verus!
