//! What a decoder answers when it is shown the bytes received so far.

use vstd::prelude::*;
use crate::error::SocksError;

verus! {

/// The answer of a decoder to the bytes received so far.
///
/// A decoder holds no state of its own: the bytes received so far are the
/// state. The owner of the stream starts with no bytes, does what the answer
/// says, and asks again with the longer buffer.
#[derive(Debug)]
pub enum Progress<T> {
    /// The message is not complete: read exactly this many bytes more, then
    /// ask again. The count is never zero.
    Read(usize),
    /// The message is complete: its value, and how many bytes of the buffer
    /// it takes.
    Done { value: T, consumed: usize },
    /// The bytes break the protocol. Where `shutdown` is set, the write side
    /// of the stream is to be closed before the error is reported.
    Failed { error: SocksError, shutdown: bool },
}

impl<T: View> View for Progress<T> {
    type V = Progress<T::V>;

    open spec fn view(&self) -> Progress<T::V> {
        match *self {
            Progress::Read(count) => Progress::Read(count),
            Progress::Done { value, consumed } => Progress::Done { value: value@, consumed },
            Progress::Failed { error, shutdown } => Progress::Failed { error, shutdown },
        }
    }
}

/// Where the owner of a stream ends up when it follows the answers of a
/// decoder, on a stream that gives `stream` and then ends, with the first
/// `have` bytes received: it reads what it is asked to read for as long as
/// the stream has that much. The answer that ends this is a value, an error,
/// or a count of bytes that the stream no longer has: that last read fails.
pub open spec fn read_in_steps<V>(
    answer: spec_fn(Seq<u8>) -> Progress<V>,
    stream: Seq<u8>,
    have: nat,
) -> Progress<V>
    decreases stream.len() - have,
{
    match answer(stream.subrange(0, have as int)) {
        Progress::Read(count) => if count >= 1 && have + count <= stream.len() {
            read_in_steps(answer, stream, have + count as nat)
        } else {
            Progress::Read(count)
        },
        decided => decided,
    }
}

} // verus!
