//! A repositionable cursor over a finite buffer of raw source bytes.
//!
//! The stream supplies single-byte lookahead (`peek`), forward-only
//! consumption (`advance`), an end-of-input test and the current position.
//! Reading past the end yields `None`, never undefined behaviour.

use vstd::prelude::*;

verus! {

/// Mathematical model of an input stream: the whole byte buffer and the
/// cursor position inside it.
pub struct StreamModel {
    pub bytes: Seq<u8>,
    pub pos: int,
}

/// An input stream backed by a byte vector, consumed front to back.
pub struct VecInputStream {
    pub bytes: Vec<u8>,
    pub pos: usize,
}

impl View for VecInputStream {
    type V = StreamModel;

    open spec fn view(&self) -> StreamModel {
        StreamModel { bytes: self.bytes@, pos: self.pos as int }
    }
}

impl VecInputStream {
    /// The cursor never points past the end of the buffer.
    pub open spec fn wf(&self) -> bool {
        0 <= self@.pos <= self@.bytes.len()
    }

    /// Wraps a complete buffer of source bytes, with the cursor at the start.
    pub fn new(buf: Vec<u8>) -> (s: VecInputStream)
        ensures
            s@.bytes == buf@,
            s@.pos == 0,
            s.wf(),
    {
        VecInputStream { bytes: buf, pos: 0 }
    }

    /// The current byte, without consuming it; `None` at end of input.
    pub fn peek(&self) -> (r: Option<u8>)
        requires
            self.wf(),
        ensures
            r == (if self@.pos < self@.bytes.len() {
                Some(self@.bytes[self@.pos])
            } else {
                Option::<u8>::None
            }),
    {
        if self.pos < self.bytes.len() {
            Some(self.bytes[self.pos])
        } else {
            None
        }
    }

    /// Consumes and returns the current byte; `None` at end of input, where
    /// the stream is left unchanged.
    pub fn advance(&mut self) -> (r: Option<u8>)
        requires
            old(self).wf(),
        ensures
            final(self).wf(),
            final(self)@.bytes == old(self)@.bytes,
            old(self)@.pos < old(self)@.bytes.len() ==> {
                &&& r == Some(old(self)@.bytes[old(self)@.pos])
                &&& final(self)@.pos == old(self)@.pos + 1
            },
            old(self)@.pos == old(self)@.bytes.len() ==> {
                &&& r is None
                &&& final(self)@.pos == old(self)@.pos
            },
    {
        if self.pos < self.bytes.len() {
            let b = self.bytes[self.pos];
            self.pos = self.pos + 1;
            Some(b)
        } else {
            None
        }
    }

    /// True when every byte has been consumed.
    pub fn at_end(&self) -> (r: bool)
        requires
            self.wf(),
        ensures
            r == (self@.pos == self@.bytes.len()),
    {
        self.pos == self.bytes.len()
    }

    /// The current cursor position, for diagnostics.
    pub fn position(&self) -> (r: usize)
        ensures
            r as int == self@.pos,
    {
        self.pos
    }
}

} // verus!
