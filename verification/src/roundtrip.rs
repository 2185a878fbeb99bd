//! The two adapters back to back, over streams in memory.
use vstd::prelude::*;
use crate::readsrc::SourceMgr;
use crate::stream::{ByteSource, MemReader};
use crate::writedst::DestinationMgr;

verus! {

/// Sends `data` through a destination adapter into memory, as an engine
/// sends what it produces, and reads it back through a source adapter, as
/// an engine reads its input.
///
/// What comes back is `data`, byte for byte, whatever the size of the
/// destination's buffer, which `capacity` asks for, and of the reader's,
/// which is `capacity` bytes. Nothing can fail on the way: memory takes
/// every byte, and the reader is read no further than its end.
pub fn round_trip(data: &[u8], capacity: usize) -> (back: Vec<u8>)
    ensures
        back@ == data@,
{
    let mut dest = DestinationMgr::new(Vec::<u8>::new(), capacity);
    let started = dest.init_destination();
    let sent = dest.emit(data);
    let finished = dest.term_destination();
    assert(started is Ok && sent is Ok && finished is Ok);
    let encoded = dest.into_inner();
    assert(encoded@ =~= data@);
    let reader = MemReader::with_capacity(capacity, encoded);
    assert(reader.upcoming() == Some(data@)) by {
        assert(data@.skip(0) =~= data@);
    }
    match SourceMgr::new(reader) {
        Ok(src) => {
            let mut src = src;
            match src.pull(data.len()) {
                Ok((bytes, _)) => {
                    assert(bytes@ =~= data@);
                    bytes
                },
                Err(_) => Vec::new(),
            }
        },
        // an adapter is not made over nothing
        Err(_) => Vec::new(),
    }
}

} // verus!
