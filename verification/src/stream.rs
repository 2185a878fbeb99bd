//! The byte streams that the adapters sit on: what an adapter asks of a
//! writer and of a buffered reader, and in-memory streams that provide it.
use vstd::prelude::*;
use vstd::slice::slice_subrange;
use vstd::slice::slice_to_vec;

verus! {

/// Why a stream could not do what it was asked.
#[derive(Copy, Clone, Debug, PartialEq, Eq, Structural)]
pub enum StreamError {
    /// The stream ended where more bytes were expected.
    UnexpectedEof,
    /// Any other failure of the underlying stream.
    Failed,
}

/// A byte stream that can be written to.
///
/// Whether a call succeeds is the implementation's to decide: an adapter
/// is verified for whatever these methods return. The one thing that an
/// implementation answers for is [`contents`](Self::contents), and only if
/// it chooses to keep its bytes; such a sink has room for them, and does
/// not fail.
pub trait ByteSink {
    /// What the sink holds, if it keeps what it is given: everything that
    /// was written to it, in order. `None` for a sink that passes its bytes
    /// on, of which nothing is said; that is what a sink is taken for
    /// unless it says otherwise.
    open spec fn contents(&self) -> Option<Seq<u8>> {
        None
    }

    /// Writes the whole of `buf`, or fails.
    fn write_all(&mut self, buf: &[u8]) -> (done: Result<(), StreamError>)
        ensures
            old(self).contents() matches Some(held) ==> done is Ok && final(self).contents()
                == Some(held + buf@),
    ;

    /// Pushes what was written so far through to its destination.
    fn flush(&mut self) -> (done: Result<(), StreamError>)
        ensures
            old(self).contents() matches Some(held) ==> done is Ok && final(self).contents()
                == Some(held),
    ;
}

/// A buffered byte stream that can be read from.
///
/// Whether a call succeeds is the implementation's to decide: an adapter
/// is verified for whatever these methods return. The one thing that an
/// implementation answers for is [`upcoming`](Self::upcoming), and only if
/// it chooses to know its bytes; such a source has them at hand, and does
/// not fail.
pub trait ByteSource {
    /// The bytes that are still to be consumed, up to the end of the
    /// stream, if the source knows them. `None` for a source that fetches
    /// its bytes from elsewhere, of which nothing is said; that is what a
    /// source is taken for unless it says otherwise.
    open spec fn upcoming(&self) -> Option<Seq<u8>> {
        None
    }

    /// How many of the upcoming bytes are in the buffer: what `fill_buf`
    /// handed out last, less what was consumed since.
    open spec fn buffered(&self) -> nat {
        0
    }

    /// The bytes that are buffered and not consumed yet, after refilling
    /// the buffer if it was empty. An empty result means the end of the
    /// stream.
    fn fill_buf(&mut self) -> (filled: Result<Vec<u8>, StreamError>)
        ensures
            old(self).upcoming() matches Some(ahead) ==> {
                &&& filled matches Ok(chunk)
                &&& final(self).upcoming() == Some(ahead)
                &&& final(self).buffered() == chunk@.len()
                &&& chunk@.len() <= ahead.len()
                &&& chunk@ == ahead.take(chunk@.len() as int)
                &&& ahead.len() > 0 ==> chunk@.len() > 0
            },
    ;

    /// Marks the first `amount` bytes of the buffer as read, so that
    /// `fill_buf` does not return them again.
    fn consume(&mut self, amount: usize)
        ensures
            old(self).upcoming() matches Some(ahead) ==> amount <= old(self).buffered() ==> {
                &&& final(self).upcoming() == Some(ahead.skip(amount as int))
                &&& final(self).buffered() == old(self).buffered() - amount
            },
    ;
}

impl ByteSink for Vec<u8> {
    /// A vector keeps what is written to it.
    open spec fn contents(&self) -> Option<Seq<u8>> {
        Some(self@)
    }

    /// Appends `buf`; never fails.
    fn write_all(&mut self, buf: &[u8]) -> (done: Result<(), StreamError>)
        ensures
            done is Ok,
            final(self)@ == old(self)@ + buf@,
    {
        let ghost before = self@;
        let mut i: usize = 0;
        while i < buf.len()
            invariant
                i <= buf@.len(),
                self@ == before + buf@.take(i as int),
            decreases buf@.len() - i,
        {
            self.push(buf[i]);
            i += 1;
            assert(self@ =~= before + buf@.take(i as int));
        }
        assert(buf@.take(i as int) =~= buf@);
        Ok(())
    }

    /// Does nothing; never fails.
    fn flush(&mut self) -> (done: Result<(), StreamError>)
        ensures
            done is Ok,
            final(self)@ == old(self)@,
    {
        Ok(())
    }
}

/// A reader over bytes held in memory, which hands them out through a
/// buffer of a fixed size.
pub struct MemReader {
    data: Vec<u8>,
    pos: usize,
    buffered_end: usize,
    chunk: usize,
}

impl MemReader {
    /// The bytes that the reader was made of.
    pub closed spec fn data(&self) -> Seq<u8> {
        self.data@
    }

    /// How many bytes have been consumed.
    pub closed spec fn position(&self) -> nat {
        self.pos as nat
    }

    /// Where the buffer ends: the position up to which bytes have been
    /// fetched.
    pub closed spec fn fetched(&self) -> nat {
        self.buffered_end as nat
    }

    /// The size of the buffer.
    pub closed spec fn chunk(&self) -> nat {
        self.chunk as nat
    }

    #[verifier::type_invariant]
    spec fn wf(&self) -> bool {
        &&& self.pos <= self.buffered_end <= self.data@.len()
        &&& self.chunk >= 1
    }

    /// The bytes that are buffered and not consumed.
    pub open spec fn in_buffer(&self) -> Seq<u8> {
        self.data().subrange(self.position() as int, self.fetched() as int)
    }

    /// Where the buffer ends once it has been refilled if it was empty.
    pub open spec fn refilled_end(&self) -> nat {
        if self.position() < self.fetched() {
            self.fetched()
        } else if self.position() + self.chunk() <= self.data().len() {
            self.position() + self.chunk()
        } else {
            self.data().len()
        }
    }

    /// A reader over `data` whose buffer holds all of it at once.
    pub fn new(data: Vec<u8>) -> (reader: MemReader)
        ensures
            reader.data() == data@,
            reader.position() == 0,
            reader.fetched() == 0,
            reader.chunk() == if data@.len() == 0 { 1 } else { data@.len() },
    {
        let chunk: usize = if data.len() == 0 { 1 } else { data.len() };
        MemReader { data, pos: 0, buffered_end: 0, chunk }
    }

    /// A reader over `data` whose buffer holds `capacity` bytes, and one
    /// byte where `capacity` is zero.
    pub fn with_capacity(capacity: usize, data: Vec<u8>) -> (reader: MemReader)
        ensures
            reader.data() == data@,
            reader.position() == 0,
            reader.fetched() == 0,
            reader.chunk() == if capacity == 0 { 1 } else { capacity },
    {
        let chunk: usize = if capacity == 0 { 1 } else { capacity };
        MemReader { data, pos: 0, buffered_end: 0, chunk }
    }

    /// How many bytes have been consumed.
    pub fn consumed(&self) -> (n: usize)
        ensures
            n == self.position(),
    {
        self.pos
    }

    /// The bytes that have not been consumed.
    pub fn unread(&self) -> (rest: Vec<u8>)
        ensures
            rest@ == self.data().skip(self.position() as int),
    {
        proof {
            use_type_invariant(self);
        }
        let rest = slice_to_vec(slice_subrange(self.data.as_slice(), self.pos, self.data.len()));
        assert(rest@ =~= self.data@.skip(self.pos as int));
        rest
    }
}

impl ByteSource for MemReader {
    /// The data from the position on.
    open spec fn upcoming(&self) -> Option<Seq<u8>> {
        Some(self.data().skip(self.position() as int))
    }

    /// The part of the data that was fetched and not consumed.
    open spec fn buffered(&self) -> nat {
        if self.fetched() >= self.position() {
            (self.fetched() - self.position()) as nat
        } else {
            0
        }
    }

    /// The buffered bytes, after fetching the next `chunk` bytes (or what
    /// is left of the data) if none were buffered; never fails.
    fn fill_buf(&mut self) -> (filled: Result<Vec<u8>, StreamError>)
        ensures
            final(self).data() == old(self).data(),
            final(self).chunk() == old(self).chunk(),
            final(self).position() == old(self).position(),
            final(self).fetched() == old(self).refilled_end(),
            filled matches Ok(bytes) && bytes@ == final(self).in_buffer(),
    {
        proof {
            use_type_invariant(&*self);
        }
        if self.pos == self.buffered_end {
            let left: usize = self.data.len() - self.pos;
            if self.chunk <= left {
                self.buffered_end = self.pos + self.chunk;
            } else {
                self.buffered_end = self.data.len();
            }
        }
        let bytes = slice_to_vec(slice_subrange(self.data.as_slice(), self.pos, self.buffered_end));
        proof {
            let ahead = self.data@.skip(self.pos as int);
            assert(bytes@ =~= ahead.take(bytes@.len() as int));
        }
        Ok(bytes)
    }

    /// Consumes `amount` bytes of the buffer, or all of it if it holds
    /// fewer.
    fn consume(&mut self, amount: usize)
        ensures
            final(self).data() == old(self).data(),
            final(self).chunk() == old(self).chunk(),
            final(self).fetched() == old(self).fetched(),
            final(self).position() == if amount <= old(self).fetched() - old(self).position() {
                old(self).position() + amount
            } else {
                old(self).fetched() as int
            },
    {
        proof {
            use_type_invariant(&*self);
        }
        if amount <= self.buffered_end - self.pos {
            self.pos = self.pos + amount;
            assert(self.data@.skip(self.pos as int) =~= old(self).data@.skip(
                old(self).pos as int,
            ).skip(amount as int));
        } else {
            self.pos = self.buffered_end;
        }
    }
}

} // verus!
