//! The output buffer: an append-only accumulator for one frame of drawing.
//!
//! All drawing commands for a frame are pushed into an [`EditorContents`]
//! and handed out in one piece, so that one keystroke produces exactly one
//! write to the terminal. The buffer holds no state between frames: taking
//! its contents leaves it empty.

use vstd::prelude::*;
use vstd::utf8::{decode_utf8, valid_utf8};

verus! {

/// Error for bytes that the buffer cannot accept as text.
#[derive(Clone, Copy, Debug, PartialEq, Eq, Structural)]
pub enum WriteError {
    /// The bytes were not valid UTF-8, so none of them were accepted.
    WriteZero,
}

/// An in-memory character accumulator; the pending output of one frame.
///
/// Appending enforces no size limit: the pending buffer grows with the
/// frame and is bounded only by available memory.
pub struct EditorContents {
    pub(crate) contents: String,
}

impl View for EditorContents {
    type V = Seq<char>;

    closed spec fn view(&self) -> Seq<char> {
        self.contents@
    }
}

/// Relies on `alloc::string::String::push`: appends the given character to
/// the end of the string.
pub assume_specification[ String::push ](s: &mut String, ch: char)
    ensures
        final(s)@ == old(s)@.push(ch),
;

/// Relies on `alloc::string::String::push_str`: appends the given string
/// slice to the end of the string.
pub assume_specification[ String::push_str ](s: &mut String, string: &str)
    ensures
        final(s)@ == old(s)@ + string@,
;

/// Relies on `std::str::from_utf8`: returns `Ok` exactly when the bytes are
/// valid UTF-8, and then yields the string those bytes encode.
#[verifier::external_body]
fn utf8_to_str(buf: &[u8]) -> (r: Option<&str>)
    ensures
        r is Some <==> valid_utf8(buf@),
        r matches Some(s) ==> s@ == decode_utf8(buf@),
{
    std::str::from_utf8(buf).ok()
}

impl EditorContents {
    /// Creates an empty buffer.
    pub fn new() -> (r: EditorContents)
        ensures
            r@ == Seq::<char>::empty(),
    {
        EditorContents { contents: String::new() }
    }

    /// Appends one character.
    pub fn push(&mut self, ch: char)
        ensures
            final(self)@ == old(self)@.push(ch),
    {
        self.contents.push(ch);
    }

    /// Appends a string slice.
    pub fn push_str(&mut self, string: &str)
        ensures
            final(self)@ == old(self)@ + string@,
    {
        self.contents.push_str(string);
    }

    /// Accepts raw bytes: appends their decoding if they are valid UTF-8 and
    /// reports how many bytes were taken; otherwise accepts zero bytes and
    /// leaves the buffer unchanged.
    pub fn write(&mut self, buf: &[u8]) -> (r: Result<usize, WriteError>)
        ensures
            valid_utf8(buf@) ==> final(self)@ == old(self)@ + decode_utf8(buf@) && r == Ok::<
                usize,
                WriteError,
            >(buf@.len() as usize),
            !valid_utf8(buf@) ==> final(self)@ == old(self)@ && r == Err::<usize, WriteError>(
                WriteError::WriteZero,
            ),
    {
        match utf8_to_str(buf) {
            Some(s) => {
                self.push_str(s);
                Ok(buf.len())
            },
            Option::None => Err(WriteError::WriteZero),
        }
    }

    /// Hands out everything accumulated so far and leaves the buffer empty,
    /// ready for the next frame.
    pub fn take(&mut self) -> (s: String)
        ensures
            s@ == old(self)@,
            final(self)@ == Seq::<char>::empty(),
    {
        let mut s = String::new();
        core::mem::swap(&mut self.contents, &mut s);
        s
    }
}

} // verus!
