//! A response formatter that holds at most `CAP` bytes.

use vstd::prelude::*;

use crate::error::{Error, ErrorCode, Result};

use super::{Formatter, ResponseUnit, RESPONSE_MESSAGE_TERMINATOR, RESPONSE_MESSAGE_UNIT_SEPARATOR};

verus! {

/// A formatter with room for `CAP` bytes: a write that does not fit fails
/// with [`ErrorCode::OutOfMemory`] and writes nothing.
#[derive(Debug)]
pub struct ArrayVecFormatter<const CAP: usize> {
    vec: Vec<u8>,
    has_units: bool,
}

impl<const CAP: usize> ArrayVecFormatter<CAP> {
    /// The formatter is within its capacity.
    pub closed spec fn wf(&self) -> bool {
        self.vec@.len() <= CAP
    }

    /// A response unit has been started in the current message.
    pub closed spec fn in_message(&self) -> bool {
        self.has_units
    }

    /// An empty formatter.
    pub fn new() -> (f: Self)
        ensures
            f.bytes().len() == 0,
            !f.in_message(),
            f.wf(),
    {
        ArrayVecFormatter { vec: Vec::new(), has_units: false }
    }
}

impl<const CAP: usize> Default for ArrayVecFormatter<CAP> {
    fn default() -> (f: Self)
        ensures
            f.bytes().len() == 0,
            !f.in_message(),
            f.wf(),
    {
        Self::new()
    }
}

impl<const CAP: usize> Formatter for ArrayVecFormatter<CAP> {
    closed spec fn bytes(&self) -> Seq<u8> {
        self.vec@
    }

    /// Room is left for `n` more bytes.
    open spec fn accepts(&self, n: nat) -> bool {
        self.bytes().len() + n <= CAP
    }

    /// Succeeds exactly when the bytes fit.
    fn push_str(&mut self, s: &[u8]) -> (r: Result<()>)
        ensures
            r is Ok <==> old(self).bytes().len() + s@.len() <= CAP,
            r is Err ==> r == Err::<(), Error>(Error(ErrorCode::OutOfMemory, None)),
            final(self).in_message() == old(self).in_message(),
            old(self).wf() ==> final(self).wf(),
    {
        if s.len() > CAP || self.vec.len() > CAP - s.len() {
            return Err(Error(ErrorCode::OutOfMemory, None));
        }
        self.vec.extend_from_slice(s);
        proof {
            assert(self.vec@ =~= old(self).vec@ + s@);
        }
        Ok(())
    }

    /// Succeeds exactly when the byte fits.
    fn push_byte(&mut self, b: u8) -> (r: Result<()>)
        ensures
            r is Ok <==> old(self).bytes().len() < CAP,
            r is Err ==> r == Err::<(), Error>(Error(ErrorCode::OutOfMemory, None)) && *final(self) == *old(self),
            final(self).in_message() == old(self).in_message(),
            old(self).wf() ==> final(self).wf(),
    {
        if self.vec.len() >= CAP {
            return Err(Error(ErrorCode::OutOfMemory, None));
        }
        self.vec.push(b);
        Ok(())
    }

    fn as_slice(&self) -> (s: &[u8]) {
        self.vec.as_slice()
    }

    fn clear(&mut self)
        ensures
            final(self).in_message() == old(self).in_message(),
            final(self).wf(),
    {
        self.vec.clear();
    }

    fn len(&self) -> (n: usize) {
        self.vec.len()
    }

    /// Starts a new message: its first unit gets no separator.
    fn message_start(&mut self) -> (r: Result<()>)
        ensures
            r is Ok,
            !final(self).in_message(),
            final(self).bytes() == old(self).bytes(),
    {
        self.has_units = false;
        Ok(())
    }

    /// Appends a line feed, where it fits.
    fn message_end(&mut self) -> (r: Result<()>)
        ensures
            r is Ok <==> old(self).bytes().len() < CAP,
            r is Err ==> r == Err::<(), Error>(Error(ErrorCode::OutOfMemory, None)),
            final(self).in_message() == old(self).in_message(),
            old(self).wf() ==> final(self).wf(),
    {
        self.push_byte(RESPONSE_MESSAGE_TERMINATOR)
    }

    /// A unit separator is written before every unit of a message but the
    /// first; fails where it does not fit.
    fn response_unit(&mut self) -> (r: Result<ResponseUnit<'_, Self>>)
        ensures
            old(self).in_message() && old(self).bytes().len() >= CAP
                ==> r == Err::<ResponseUnit<'_, Self>, Error>(Error(ErrorCode::OutOfMemory, None)),
            r matches Ok(u) ==> {
                &&& u.fmt.bytes() == if old(self).in_message() {
                    old(self).bytes().push(RESPONSE_MESSAGE_UNIT_SEPARATOR)
                } else {
                    old(self).bytes()
                }
                &&& u.fmt.in_message()
                &&& (old(self).wf() ==> u.fmt.wf())
            },
            !(old(self).in_message() && old(self).bytes().len() >= CAP) ==> r is Ok,
    {
        if self.has_units {
            if let Err(e) = self.push_byte(RESPONSE_MESSAGE_UNIT_SEPARATOR) {
                return Err(e);
            }
        }
        self.has_units = true;
        Ok(ResponseUnit { fmt: self, result: Ok(()), has_header: false, has_data: false })
    }
}

} // verus!
