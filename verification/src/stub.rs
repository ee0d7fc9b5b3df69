//! A scripted trace target: an in-memory byte image and a fixed sequence
//! of register snapshots. It drives the same verified loop and readers as
//! the real OS-backed target, which makes the engine testable without a
//! live child.

use vstd::prelude::*;
use crate::memory::{range_bytes, range_readable, MemError};
use crate::registers::RegisterSnapshot;
use crate::target::{RegReadError, TraceError, TraceTarget};

verus! {

/// A stand-in child: `image` is its memory, mapped at `image_base`;
/// `script` is the sequence of register snapshots its stops deliver, after
/// which the child counts as gone.
pub struct StubTarget {
    image_base: usize,
    image: Vec<u8>,
    script: Vec<RegisterSnapshot>,
    delivered: usize,
}

impl StubTarget {
    /// A scripted target over the given memory image and stop script.
    pub fn new(image_base: usize, image: Vec<u8>, script: Vec<RegisterSnapshot>) -> (r: StubTarget)
        requires
            script@.len() < usize::MAX,
        ensures
            r.mem() == stub_mem(image_base as int, image@),
            r.mem_reliable(),
            r.scripted(),
            r.stops() == script@,
            r.pos() == 0,
    {
        StubTarget { image_base, image, script, delivered: 0 }
    }
}

/// The memory map of a stub image: the bytes of `image` at consecutive
/// addresses from `base`.
pub open spec fn stub_mem(base: int, image: Seq<u8>) -> Map<int, u8> {
    Map::new(|a: int| base <= a < base + image.len(), |a: int| image[a - base])
}

impl TraceTarget for StubTarget {
    closed spec fn mem(&self) -> Map<int, u8> {
        stub_mem(self.image_base as int, self.image@)
    }

    closed spec fn mem_reliable(&self) -> bool {
        true
    }

    closed spec fn scripted(&self) -> bool {
        self.script@.len() < usize::MAX
    }

    closed spec fn stops(&self) -> Seq<RegisterSnapshot> {
        self.script@
    }

    closed spec fn pos(&self) -> int {
        self.delivered as int
    }

    fn read_chunk(&self, base: usize, len: usize) -> (r: Result<Vec<u8>, MemError>) {
        let n = self.image.len();
        if len == 0 {
            let v: Vec<u8> = Vec::new();
            proof {
                assert(v@ =~= range_bytes(self.mem(), base as int, 0));
            }
            return Ok(v);
        }
        if base < self.image_base {
            proof {
                assert(!self.mem().dom().contains(base as int));
            }
            return Err(MemError::ReadFailed);
        }
        let off = base - self.image_base;
        if off > n || len > n - off {
            proof {
                assert(!self.mem().dom().contains(base as int + len - 1));
            }
            return Err(MemError::ReadFailed);
        }
        let mut v: Vec<u8> = Vec::new();
        let mut i: usize = 0;
        while i < len
            invariant
                i <= len,
                off + len <= self.image@.len(),
                self.image@.len() <= usize::MAX,
                v@.len() == i,
                forall|j: int| 0 <= j < i ==> v@[j] == self.image@[off + j],
            decreases len - i,
        {
            v.push(self.image[off + i]);
            i = i + 1;
        }
        proof {
            assert(v@ =~= range_bytes(self.mem(), base as int, len as int));
        }
        Ok(v)
    }

    fn resume_to_stop(&mut self) -> (r: Result<(), TraceError>) {
        if self.delivered < usize::MAX {
            self.delivered = self.delivered + 1;
        }
        Ok(())
    }

    fn read_registers(&self) -> (r: Result<RegisterSnapshot, RegReadError>) {
        if self.delivered >= 1 && self.delivered - 1 < self.script.len() {
            Ok(self.script[self.delivered - 1])
        } else {
            Err(RegReadError::ProcessGone)
        }
    }
}

} // verus!
