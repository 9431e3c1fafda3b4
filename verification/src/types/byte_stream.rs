use vstd::prelude::*;

use crate::errors::BfpError;

verus! {

/// A bounds-checked forward cursor over an in-memory byte buffer. `get`
/// advances, `peek` does not, `remaining` consumes and returns the unread
/// tail. There is no seeking backward.
#[derive(Debug)]
pub struct ByteStream {
    bytes: Vec<u8>,
    progress: usize,
}

/// Abstract state of a stream: the whole buffer and the read position.
pub struct StreamView {
    pub bytes: Seq<u8>,
    pub progress: int,
}

impl StreamView {
    /// The unread tail of the stream.
    pub open spec fn unread(self) -> Seq<u8> {
        self.bytes.skip(self.progress)
    }

    /// How many bytes are left to read.
    pub open spec fn available(self) -> int {
        self.bytes.len() - self.progress
    }

    /// A stream is well formed when its position lies within the buffer.
    pub open spec fn wf(self) -> bool {
        0 <= self.progress <= self.bytes.len()
    }
}

impl View for ByteStream {
    type V = StreamView;

    closed spec fn view(&self) -> StreamView {
        StreamView { bytes: self.bytes@, progress: self.progress as int }
    }
}

impl ByteStream {
    /// A stream over no bytes at all.
    pub fn empty() -> (s: ByteStream)
        ensures
            s@.wf(),
            s@.bytes == Seq::<u8>::empty(),
            s@.progress == 0,
    {
        ByteStream { bytes: Vec::new(), progress: 0 }
    }

    /// A stream positioned at the start of the given buffer.
    pub fn from_bytes(bytes: Vec<u8>) -> (s: ByteStream)
        ensures
            s@.wf(),
            s@.bytes == bytes@,
            s@.progress == 0,
    {
        ByteStream { bytes, progress: 0 }
    }

    /// How many bytes are left to read.
    pub fn available(&self) -> (n: usize)
        requires
            self@.wf(),
        ensures
            n == self@.available(),
    {
        self.bytes.len() - self.progress
    }

    /// Reads the next `n` bytes and advances past them. Succeeds exactly
    /// when `n` bytes remain; on failure the stream is unchanged.
    pub fn get(&mut self, n: usize) -> (r: Result<Vec<u8>, BfpError>)
        requires
            old(self)@.wf(),
        ensures
            final(self)@.wf(),
            final(self)@.bytes == old(self)@.bytes,
            n <= old(self)@.available() ==> {
                &&& r matches Ok(bytes) && bytes@ == old(self)@.bytes.subrange(
                    old(self)@.progress,
                    old(self)@.progress + n,
                )
                &&& final(self)@.progress == old(self)@.progress + n
            },
            n > old(self)@.available() ==> {
                &&& r == Err::<Vec<u8>, BfpError>(BfpError::Truncation {
                    requested: n,
                    available: (old(self)@.available()) as usize,
                })
                &&& final(self)@.progress == old(self)@.progress
            },
    {
        let len = self.bytes.len();
        if len - self.progress < n {
            return Err(BfpError::Truncation { requested: n, available: len - self.progress });
        }
        let mut out: Vec<u8> = Vec::new();
        let mut i: usize = 0;
        while i < n
            invariant
                self@.wf(),
                i <= n,
                n <= self@.available(),
                self@.bytes.len() <= usize::MAX,
                out@ == self@.bytes.subrange(self@.progress, self@.progress + i),
            decreases n - i,
        {
            out.push(self.bytes[self.progress + i]);
            proof {
                assert(out@ =~= self@.bytes.subrange(self@.progress, self@.progress + i + 1));
            }
            i = i + 1;
        }
        self.progress = self.progress + n;
        Ok(out)
    }

    /// Reads the next `n` bytes without advancing. Succeeds exactly when
    /// `n` bytes remain.
    pub fn peek(&self, n: usize) -> (r: Result<Vec<u8>, BfpError>)
        requires
            self@.wf(),
        ensures
            n <= self@.available() ==> (r matches Ok(bytes) && bytes@ == self@.bytes.subrange(
                self@.progress,
                self@.progress + n,
            )),
            n > self@.available() ==> r == Err::<Vec<u8>, BfpError>(BfpError::Truncation {
                requested: n,
                available: (self@.available()) as usize,
            }),
    {
        let len = self.bytes.len();
        if len - self.progress < n {
            return Err(BfpError::Truncation { requested: n, available: len - self.progress });
        }
        let mut out: Vec<u8> = Vec::new();
        let mut i: usize = 0;
        while i < n
            invariant
                self@.wf(),
                i <= n,
                n <= self@.available(),
                self@.bytes.len() <= usize::MAX,
                out@ == self@.bytes.subrange(self@.progress, self@.progress + i),
            decreases n - i,
        {
            out.push(self.bytes[self.progress + i]);
            proof {
                assert(out@ =~= self@.bytes.subrange(self@.progress, self@.progress + i + 1));
            }
            i = i + 1;
        }
        Ok(out)
    }

    /// Consumes and returns everything that is left.
    pub fn remaining(&mut self) -> (r: Vec<u8>)
        requires
            old(self)@.wf(),
        ensures
            final(self)@.wf(),
            final(self)@.bytes == old(self)@.bytes,
            final(self)@.progress == old(self)@.bytes.len(),
            r@ == old(self)@.unread(),
    {
        let len = self.bytes.len();
        let mut out: Vec<u8> = Vec::new();
        let mut i: usize = self.progress;
        while i < len
            invariant
                self@.wf(),
                self@.progress <= i <= len == self@.bytes.len(),
                out@ == self@.bytes.subrange(self@.progress, i as int),
            decreases len - i,
        {
            out.push(self.bytes[i]);
            proof {
                assert(out@ =~= self@.bytes.subrange(self@.progress, i + 1));
            }
            i = i + 1;
        }
        self.progress = len;
        proof {
            assert(out@ =~= old(self)@.unread());
        }
        out
    }
}

} // verus!
