//! The in-memory stream adapter: a fixed byte region with a cursor, whose
//! read, write and seek operations are pure offset arithmetic bounded by the
//! region length.  Out-of-range seeks report a failure instead of clamping.

use vstd::prelude::*;

verus! {

/// The three origins a seek can be relative to, as the stream contract
/// defines them.
#[derive(Copy, Clone, Debug, PartialEq, Eq, Structural)]
pub enum SeekOrigin {
    /// Absolute: the offset is the new position.
    Start,
    /// Relative to the end of the stream.
    End,
    /// Relative to the current position.
    Current,
}

/// The C `whence` code that stands for each origin when a seek is forwarded to
/// a native or caller-supplied seek routine (the values `stdio.h` fixes:
/// `SEEK_SET == 0`, `SEEK_CUR == 1`, `SEEK_END == 2`).
pub fn seek_origin_whence(origin: SeekOrigin) -> (whence: i32)
    ensures
        origin == SeekOrigin::Start ==> whence == 0,
        origin == SeekOrigin::Current ==> whence == 1,
        origin == SeekOrigin::End ==> whence == 2,
{
    match origin {
        SeekOrigin::Start => 0,
        SeekOrigin::Current => 1,
        SeekOrigin::End => 2,
    }
}

/// The position a seek lands on, if it stays inside a stream of length
/// `len` (a position equal to `len` — one past the last byte — is allowed,
/// as streams allow seeking to their end).
pub open spec fn spec_resolve_seek(len: int, cur: int, origin: SeekOrigin, offset: int) -> Option<
    int,
> {
    let target = match origin {
        SeekOrigin::Start => offset,
        SeekOrigin::End => len + offset,
        SeekOrigin::Current => cur + offset,
    };
    if 0 <= target <= len {
        Some(target)
    } else {
        None
    }
}

/// Resolves a seek request against a stream of length `len` whose cursor is
/// at `cur`: pure offset arithmetic, `None` exactly when the target falls
/// outside `0 ..= len`.
pub fn resolve_seek(len: u64, cur: u64, origin: SeekOrigin, offset: i64) -> (r: Option<u64>)
    requires
        cur <= len,
    ensures
        r matches Some(p) ==> spec_resolve_seek(len as int, cur as int, origin, offset as int)
            == Some(p as int),
        r is None <==> spec_resolve_seek(len as int, cur as int, origin, offset as int) is None,
{
    let base: u64 = match origin {
        SeekOrigin::Start => 0,
        SeekOrigin::End => len,
        SeekOrigin::Current => cur,
    };
    if offset >= 0 {
        let fwd = offset as u64;
        if fwd <= len - base {
            Some(base + fwd)
        } else {
            None
        }
    } else {
        let back: u64 = if offset == i64::MIN {
            9223372036854775808u64
        } else {
            (-offset) as u64
        };
        if back <= base {
            Some(base - back)
        } else {
            None
        }
    }
}

/// A fixed, owned byte region with a cursor.  The region never grows or
/// shrinks: reads and writes move data across the cursor and are truncated
/// at the region's end.
pub struct MemStream {
    data: Vec<u8>,
    pos: usize,
}

impl MemStream {
    /// The bytes of the region.
    pub closed spec fn spec_data(&self) -> Seq<u8> {
        self.data@
    }

    /// The cursor, always within `0 ..= spec_data().len()`.
    pub closed spec fn spec_pos(&self) -> int {
        self.pos as int
    }

    /// Well-formedness: the cursor never leaves the region.
    pub closed spec fn wf(&self) -> bool {
        self.pos <= self.data@.len()
    }

    /// Wraps a byte region; the cursor starts at the beginning.
    pub fn new(data: Vec<u8>) -> (s: MemStream)
        ensures
            s.wf(),
            s.spec_data() == data@,
            s.spec_pos() == 0,
    {
        MemStream { data, pos: 0 }
    }

    /// Length of the region.
    pub fn len(&self) -> (n: usize)
        ensures
            n == self.spec_data().len(),
    {
        self.data.len()
    }

    /// The current cursor position.
    pub fn tell(&self) -> (p: u64)
        requires
            self.wf(),
        ensures
            p == self.spec_pos(),
    {
        self.pos as u64
    }

    /// Gives the region back, consuming the stream.
    pub fn into_vec(self) -> (v: Vec<u8>)
        ensures
            v@ == self.spec_data(),
    {
        self.data
    }

    /// Reads from the cursor into the front of `out`: exactly
    /// `min(out.len(), remaining)` bytes are copied, the rest of `out` is
    /// untouched, and the cursor advances by the count returned.
    pub fn read_into(&mut self, out: &mut Vec<u8>) -> (n: usize)
        requires
            old(self).wf(),
        ensures
            final(self).wf(),
            final(self).spec_data() == old(self).spec_data(),
            n == vstd::math::min(old(out)@.len() as int, old(self).spec_data().len()
                - old(self).spec_pos()),
            final(self).spec_pos() == old(self).spec_pos() + n,
            final(out)@.len() == old(out)@.len(),
            forall|j: int|
                0 <= j < n ==> final(out)@[j] == old(self).spec_data()[old(self).spec_pos() + j],
            forall|j: int| n <= j < old(out)@.len() ==> final(out)@[j] == old(out)@[j],
    {
        let remaining = self.data.len() - self.pos;
        let n = if out.len() < remaining {
            out.len()
        } else {
            remaining
        };
        let mut j: usize = 0;
        while j < n
            invariant
                j <= n,
                n <= out@.len(),
                self.pos + n <= self.data@.len(),
                self.data@.len() <= usize::MAX,
                out@.len() == old(out)@.len(),
                self.data@ == old(self).spec_data(),
                self.pos == old(self).spec_pos(),
                forall|k: int| 0 <= k < j ==> out@[k] == self.data@[self.pos + k],
                forall|k: int| j <= k < out@.len() ==> out@[k] == old(out)@[k],
            decreases n - j,
        {
            let b = self.data[self.pos + j];
            out[j] = b;
            j += 1;
        }
        self.pos = self.pos + n;
        n
    }

    /// Writes the front of `src` at the cursor: exactly
    /// `min(src.len(), remaining)` bytes of the region are overwritten — the
    /// region is fixed, so a write never grows it — and the cursor advances
    /// by the count returned.
    pub fn write_from(&mut self, src: &[u8]) -> (n: usize)
        requires
            old(self).wf(),
        ensures
            final(self).wf(),
            n == vstd::math::min(src@.len() as int, old(self).spec_data().len()
                - old(self).spec_pos()),
            final(self).spec_pos() == old(self).spec_pos() + n,
            final(self).spec_data().len() == old(self).spec_data().len(),
            forall|j: int|
                0 <= j < n ==> final(self).spec_data()[old(self).spec_pos() + j] == src@[j],
            forall|j: int|
                0 <= j < old(self).spec_data().len() && !(old(self).spec_pos() <= j < old(
                    self,
                ).spec_pos() + n) ==> final(self).spec_data()[j] == old(self).spec_data()[j],
    {
        let remaining = self.data.len() - self.pos;
        let n = if src.len() < remaining {
            src.len()
        } else {
            remaining
        };
        let mut j: usize = 0;
        while j < n
            invariant
                j <= n,
                n <= src@.len(),
                self.pos + n <= self.data@.len(),
                self.data@.len() <= usize::MAX,
                self.data@.len() == old(self).spec_data().len(),
                self.pos == old(self).spec_pos(),
                forall|k: int| 0 <= k < j ==> self.data@[self.pos + k] == src@[k],
                forall|k: int|
                    0 <= k < self.data@.len() && !(self.pos <= k < self.pos + j)
                        ==> self.data@[k] == old(self).spec_data()[k],
            decreases n - j,
        {
            let b = src[j];
            let i = self.pos + j;
            self.data[i] = b;
            j += 1;
        }
        self.pos = self.pos + n;
        n
    }

    /// Seeks the cursor: pure offset arithmetic bounded by the region
    /// length.  An out-of-range target reports a failure and leaves the
    /// cursor where it was — it is never clamped.
    pub fn seek(&mut self, origin: SeekOrigin, offset: i64) -> (r: Result<u64, ()>)
        requires
            old(self).wf(),
        ensures
            final(self).wf(),
            final(self).spec_data() == old(self).spec_data(),
            r matches Ok(p) ==> {
                &&& spec_resolve_seek(
                    old(self).spec_data().len() as int,
                    old(self).spec_pos(),
                    origin,
                    offset as int,
                ) == Some(p as int)
                &&& final(self).spec_pos() == p
            },
            r is Err <==> spec_resolve_seek(
                old(self).spec_data().len() as int,
                old(self).spec_pos(),
                origin,
                offset as int,
            ) is None,
            r is Err ==> final(self).spec_pos() == old(self).spec_pos(),
    {
        let len = self.data.len() as u64;
        let cur = self.pos as u64;
        match resolve_seek(len, cur, origin, offset) {
            Some(p) => {
                self.pos = p as usize;
                Ok(p)
            },
            None => Err(()),
        }
    }
}

} // verus!
