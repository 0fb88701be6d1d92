//! Upload policy of a per-instance GPU buffer.
//!
//! A renderer remembers the largest byte length it has uploaded to its buffer,
//! the watermark. Data that fits under the watermark overwrites the start of
//! the existing storage; longer data replaces the storage and raises the
//! watermark. Storage is thus reallocated only when the data grows.

use vstd::prelude::*;

verus! {

/// Vertices of the quad that every instance draws: two triangles.
pub const QUAD_VERTICES: i32 = 6;

/// How one frame's instance data reaches the buffer.
#[derive(Clone, Copy, Debug, PartialEq, Eq, Structural)]
pub enum Upload {
    /// Overwrite the existing storage from offset 0; nothing is reallocated.
    InPlace,
    /// Replace the whole storage with the new data.
    Replace,
}

/// The upload that data of `byte_len` bytes gets at the given watermark.
pub open spec fn upload_for(watermark: int, byte_len: int) -> Upload {
    if byte_len <= watermark {
        Upload::InPlace
    } else {
        Upload::Replace
    }
}

/// The watermark after data of `byte_len` bytes was uploaded: the larger of
/// the two.
pub open spec fn watermark_after(watermark: int, byte_len: int) -> int {
    if byte_len <= watermark {
        watermark
    } else {
        byte_len
    }
}

/// The largest byte length uploaded so far to one buffer.
#[derive(Clone, Copy, Debug, PartialEq, Eq, Structural)]
pub struct Watermark {
    pub bytes: usize,
}

impl Watermark {
    /// The watermark of a buffer nothing was uploaded to.
    pub fn new() -> (r: Self)
        ensures
            r.bytes == 0,
    {
        Watermark { bytes: 0 }
    }

    /// Decides how data of `byte_len` bytes is uploaded, and raises the
    /// watermark where the data is longer than anything uploaded before.
    pub fn upload(&mut self, byte_len: usize) -> (mode: Upload)
        ensures
            mode == upload_for(old(self).bytes as int, byte_len as int),
            final(self).bytes == watermark_after(old(self).bytes as int, byte_len as int),
            mode == Upload::InPlace <==> byte_len <= old(self).bytes,
            mode == Upload::InPlace ==> final(self).bytes == old(self).bytes,
            mode == Upload::Replace ==> final(self).bytes == byte_len,
    {
        if byte_len <= self.bytes {
            Upload::InPlace
        } else {
            self.bytes = byte_len;
            Upload::Replace
        }
    }
}

/// A frame no longer than the one before it is uploaded in place and leaves
/// the watermark where it was.
pub proof fn lemma_shorter_frame_updates_in_place(watermark: int, first: int, second: int)
    requires
        second <= first,
    ensures
        upload_for(watermark_after(watermark, first), second) == Upload::InPlace,
        watermark_after(watermark_after(watermark, first), second) == watermark_after(
            watermark,
            first,
        ),
{
}

/// A frame longer than the one before it replaces the storage and raises the
/// watermark to its own length, provided that the earlier frame had reached
/// the watermark.
pub proof fn lemma_longer_frame_grows(watermark: int, first: int, second: int)
    requires
        watermark <= first,
        first < second,
    ensures
        upload_for(watermark_after(watermark, first), second) == Upload::Replace,
        watermark_after(watermark_after(watermark, first), second) == second,
{
}

/// The watermark never falls, and after an upload it covers the uploaded data.
pub proof fn lemma_watermark_monotone(watermark: int, byte_len: int)
    ensures
        watermark <= watermark_after(watermark, byte_len),
        byte_len <= watermark_after(watermark, byte_len),
{
}

} // verus!
