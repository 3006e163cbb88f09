//! The two ways a decode can fail.

use vstd::prelude::*;

verus! {

/// Why a block or an option could not be decoded.
#[derive(Clone, Copy, Debug, PartialEq, Eq)]
pub enum PcapError {
    /// The input is a valid but truncated prefix: this many more bytes are
    /// needed before decoding can go on.
    IncompleteBuffer(usize),
    /// The input is malformed; the text names the field that is wrong.
    InvalidField(&'static str),
}

/// The bytes from the start of `slice` up to `n`, and what follows them, or
/// the count of bytes missing when `slice` is shorter than `n`.
pub fn take_bytes<'a>(slice: &'a [u8], n: usize) -> (r: Result<(&'a [u8], &'a [u8]), PcapError>)
    ensures
        n <= slice@.len() ==> (r matches Ok((head, tail)) && head@ == slice@.subrange(0, n as int)
            && tail@ == slice@.subrange(n as int, slice@.len() as int)),
        n > slice@.len() ==> r == Err::<(&'a [u8], &'a [u8]), PcapError>(
            PcapError::IncompleteBuffer((n - slice@.len()) as usize),
        ),
{
    if n <= slice.len() {
        Ok(slice.split_at(n))
    } else {
        Err(PcapError::IncompleteBuffer(n - slice.len()))
    }
}

} // verus!
