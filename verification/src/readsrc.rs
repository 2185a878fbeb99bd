//! The source adapter: the engine's pull protocol (refill the buffer, skip
//! bytes, finish) carried over a buffered byte reader.
use vstd::prelude::*;
use crate::errormgr::{Fatal, Warning};
use crate::stream::{ByteSource, StreamError};

verus! {

/// The end-of-image marker, twice: what the engine is given to read when
/// the input ends early, so that it can finish what it has.
pub open spec fn fake_eoi() -> Seq<u8> {
    seq![0xFFu8, 0xD9u8, 0xFFu8, 0xD9u8]
}

/// The non-negative difference of two counts.
pub open spec fn minus(a: nat, b: nat) -> nat {
    if a >= b {
        (a - b) as nat
    } else {
        0
    }
}

/// The buffer that the engine reads from, and the cursor into it.
struct InputBuffer {
    chunk: Vec<u8>,
    next_input_byte: usize,
    bytes_in_buffer: usize,
    live: bool,
}

impl InputBuffer {
    /// The cursor of a live adapter lies in the buffer. Of an adapter that
    /// is no longer live nothing is asked: its cursor may be poisoned.
    #[verifier::type_invariant]
    spec fn inv(&self) -> bool {
        self.live ==> self.next_input_byte + self.bytes_in_buffer <= self.chunk@.len()
    }

    spec fn window(&self) -> Seq<u8> {
        self.chunk@.subrange(
            self.next_input_byte as int,
            self.next_input_byte + self.bytes_in_buffer,
        )
    }

    fn empty() -> (inp: InputBuffer)
        ensures
            inp.chunk@.len() == 0,
            inp.next_input_byte == 0,
            inp.bytes_in_buffer == 0,
            inp.live,
    {
        InputBuffer { chunk: Vec::new(), next_input_byte: 0, bytes_in_buffer: 0, live: true }
    }

    fn load(&mut self, chunk: Vec<u8>)
        requires
            old(self).live,
        ensures
            final(self).chunk@ == chunk@,
            final(self).next_input_byte == 0,
            final(self).bytes_in_buffer == chunk@.len(),
            final(self).window() == chunk@,
            final(self).live,
    {
        let len = chunk.len();
        *self = InputBuffer { chunk, next_input_byte: 0, bytes_in_buffer: len, live: true };
        assert(self.window() =~= self.chunk@);
    }

    /// Ends the adapter's life and leaves the cursor as it is.
    fn kill(&mut self)
        ensures
            !final(self).live,
            final(self).chunk@ == old(self).chunk@,
            final(self).next_input_byte == old(self).next_input_byte,
            final(self).bytes_in_buffer == old(self).bytes_in_buffer,
    {
        self.live = false;
    }

    /// Ends the adapter's life and overwrites the cursor with values that
    /// point at nothing.
    fn poison(&mut self)
        ensures
            !final(self).live,
            final(self).chunk@ == Seq::<u8>::empty(),
            final(self).next_input_byte == usize::MAX,
            final(self).bytes_in_buffer == usize::MAX,
    {
        self.live = false;
        self.chunk = Vec::new();
        self.next_input_byte = usize::MAX;
        self.bytes_in_buffer = usize::MAX;
    }

    fn in_bounds(&self, next_input_byte: usize, bytes_in_buffer: usize) -> (fits: bool)
        ensures
            fits == (next_input_byte + bytes_in_buffer <= self.chunk@.len()),
    {
        let len = self.chunk.len();
        next_input_byte <= len && bytes_in_buffer <= len - next_input_byte
    }

    fn set_cursor(&mut self, next_input_byte: usize, bytes_in_buffer: usize)
        requires
            next_input_byte + bytes_in_buffer <= old(self).chunk@.len(),
        ensures
            final(self).chunk@ == old(self).chunk@,
            final(self).next_input_byte == next_input_byte,
            final(self).bytes_in_buffer == bytes_in_buffer,
            final(self).live == old(self).live,
    {
        proof {
            use_type_invariant(&*self);
        }
        self.bytes_in_buffer = 0;
        self.next_input_byte = next_input_byte;
        self.bytes_in_buffer = bytes_in_buffer;
    }

    fn first(&self) -> (byte: u8)
        requires
            self.live,
            self.bytes_in_buffer > 0,
        ensures
            byte == self.window()[0],
    {
        proof {
            use_type_invariant(self);
        }
        self.chunk[self.next_input_byte]
    }

    fn advance(&mut self, amount: usize)
        requires
            old(self).live,
            amount <= old(self).bytes_in_buffer,
        ensures
            final(self).live,
            final(self).chunk@ == old(self).chunk@,
            final(self).next_input_byte == old(self).next_input_byte + amount,
            final(self).bytes_in_buffer == old(self).bytes_in_buffer - amount,
            final(self).window() == old(self).window().skip(amount as int),
    {
        proof {
            use_type_invariant(&*self);
        }
        let len = self.chunk.len();
        let next = self.next_input_byte + amount;
        let left = self.bytes_in_buffer - amount;
        self.set_cursor(next, left);
        assert(self.window() =~= old(self).window().skip(amount as int));
    }
}

/// Adapter between the engine, which reads compressed bytes through a
/// cursor into a buffer, and the reader that supplies them.
///
/// The cursor is a pair of numbers: the index in the buffer of the next
/// byte to read, and the count of bytes after it. The engine moves the
/// cursor as it reads. It need not keep it up to date between refills: a
/// refill counts the whole buffer as read.
pub struct SourceMgr<R> {
    inp: InputBuffer,
    to_consume: usize,
    reader: R,
    consumed: Ghost<nat>,
}

impl<R> SourceMgr<R> {
    /// The buffer that the cursor points into: what the reader delivered
    /// last, or the end markers that stand in for it.
    pub closed spec fn chunk(&self) -> Seq<u8> {
        self.inp.chunk@
    }

    /// Index in the buffer of the next byte that the engine reads.
    pub closed spec fn next(&self) -> usize {
        self.inp.next_input_byte
    }

    /// Number of bytes that the engine may read before it must ask for
    /// more.
    pub closed spec fn remaining(&self) -> usize {
        self.inp.bytes_in_buffer
    }

    /// How many bytes of the reader's buffer were delivered to the engine
    /// and are not marked as consumed in the reader yet.
    pub closed spec fn to_consume(&self) -> usize {
        self.to_consume
    }

    /// How many bytes the adapter has told the reader to consume, in all.
    pub closed spec fn consumed(&self) -> nat {
        self.consumed@
    }

    /// Whether the adapter may still be used. It may not once the
    /// decompression was finished, or the adapter poisoned.
    pub closed spec fn is_live(&self) -> bool {
        self.inp.live
    }

    /// The reader that the adapter owns.
    pub closed spec fn reader(&self) -> R {
        self.reader
    }

    /// The bytes that the engine has in front of it: those of the buffer
    /// from the cursor on, as many as the cursor counts.
    pub open spec fn window(&self) -> Seq<u8> {
        self.chunk().subrange(self.next() as int, self.next() + self.remaining())
    }

    /// How many bytes of the reader the engine has gone past: those that
    /// the reader was told to consume, and those of the delivered buffer
    /// that lie before the cursor.
    pub open spec fn position(&self) -> nat {
        self.consumed() + minus(self.to_consume() as nat, self.remaining() as nat)
    }

    /// Whether the cursor is up to date in a buffer of the reader's: what
    /// lies before it was read by the engine, and what lies behind it is
    /// all that the reader delivered and the engine has not read.
    pub open spec fn in_step(&self) -> bool {
        &&& self.to_consume() > 0
        &&& self.chunk().len() == self.to_consume()
        &&& self.next() + self.remaining() == self.to_consume()
    }

    /// Index in the buffer of the next byte that the engine reads.
    pub fn next_input_byte(&self) -> (next: usize)
        ensures
            next == self.next(),
    {
        self.inp.next_input_byte
    }

    /// Number of bytes that the engine may read before it must ask for
    /// more.
    pub fn bytes_in_buffer(&self) -> (remaining: usize)
        ensures
            remaining == self.remaining(),
            self.is_live() ==> remaining == self.window().len(),
            self.is_live() ==> self.next() + remaining <= self.chunk().len(),
    {
        proof {
            use_type_invariant(&self.inp);
        }
        self.inp.bytes_in_buffer
    }

    /// Whether the adapter refuses the engine's calls.
    pub fn is_poisoned(&self) -> (poisoned: bool)
        ensures
            poisoned == !self.is_live(),
    {
        !self.inp.live
    }

    /// The buffer that the cursor points into.
    pub fn buffer(&self) -> (buffer: &[u8])
        ensures
            buffer@ == self.chunk(),
            self.is_live() ==> self.next() + self.remaining() <= buffer@.len(),
    {
        proof {
            use_type_invariant(&self.inp);
        }
        self.inp.chunk.as_slice()
    }

    /// The engine's side of the cursor: records where the engine says it
    /// stands. A cursor that would reach past the buffer is refused, and
    /// so is any cursor once the adapter is no longer live; nothing
    /// changes then.
    pub fn set_cursor(&mut self, next_input_byte: usize, bytes_in_buffer: usize) -> (accepted: bool)
        ensures
            accepted == (old(self).is_live() && next_input_byte + bytes_in_buffer <= old(
                self,
            ).chunk().len()),
            final(self).next() == if accepted {
                next_input_byte
            } else {
                old(self).next()
            },
            final(self).remaining() == if accepted {
                bytes_in_buffer
            } else {
                old(self).remaining()
            },
            final(self).chunk() == old(self).chunk(),
            final(self).to_consume() == old(self).to_consume(),
            final(self).consumed() == old(self).consumed(),
            final(self).is_live() == old(self).is_live(),
            final(self).reader() == old(self).reader(),
    {
        if self.inp.live && self.inp.in_bounds(next_input_byte, bytes_in_buffer) {
            self.inp.set_cursor(next_input_byte, bytes_in_buffer);
            true
        } else {
            false
        }
    }

    /// Takes over the cursor as the engine left it, before a call that
    /// reads it. A cursor that would reach past the buffer is not this
    /// adapter's: it is refused with `Fatal::VirtualBug`, the cursor stays
    /// as it was, and the adapter is not live afterwards. An adapter that
    /// is no longer live refuses with `Fatal::Dangling`.
    pub fn adopt_cursor(&mut self, next_input_byte: usize, bytes_in_buffer: usize) -> (adopted:
        Result<(), Fatal>)
        ensures
            adopted == if !old(self).is_live() {
                Err::<(), Fatal>(Fatal::Dangling)
            } else if next_input_byte + bytes_in_buffer <= old(self).chunk().len() {
                Ok(())
            } else {
                Err(Fatal::VirtualBug)
            },
            final(self).is_live() == (old(self).is_live() && adopted is Ok),
            final(self).next() == if adopted is Ok {
                next_input_byte
            } else {
                old(self).next()
            },
            final(self).remaining() == if adopted is Ok {
                bytes_in_buffer
            } else {
                old(self).remaining()
            },
            final(self).chunk() == old(self).chunk(),
            final(self).to_consume() == old(self).to_consume(),
            final(self).consumed() == old(self).consumed(),
            final(self).reader() == old(self).reader(),
    {
        if !self.inp.live {
            return Err(Fatal::Dangling);
        }
        if self.set_cursor(next_input_byte, bytes_in_buffer) {
            Ok(())
        } else {
            self.inp.kill();
            Err(Fatal::VirtualBug)
        }
    }

    /// The engine's side of the buffer: takes the byte at the cursor and
    /// moves the cursor past it. Returns `None`, and changes nothing, when
    /// no byte is left before a refill, and when the adapter is no longer
    /// live.
    pub fn next_byte(&mut self) -> (byte: Option<u8>)
        ensures
            byte == if old(self).is_live() && old(self).remaining() > 0 {
                Some(old(self).chunk()[old(self).next() as int])
            } else {
                None
            },
            byte is Some ==> final(self).next() == old(self).next() + 1,
            byte is Some ==> final(self).remaining() == old(self).remaining() - 1,
            byte is None ==> final(self).next() == old(self).next(),
            byte is None ==> final(self).remaining() == old(self).remaining(),
            old(self).is_live() ==> old(self).next() + old(self).remaining() <= old(
                self,
            ).chunk().len(),
            final(self).chunk() == old(self).chunk(),
            final(self).to_consume() == old(self).to_consume(),
            final(self).consumed() == old(self).consumed(),
            final(self).is_live() == old(self).is_live(),
            final(self).reader() == old(self).reader(),
    {
        proof {
            use_type_invariant(&self.inp);
        }
        if self.inp.live && self.inp.bytes_in_buffer > 0 {
            let byte = self.inp.first();
            self.inp.advance(1);
            Some(byte)
        } else {
            None
        }
    }

    /// Make any further use by the engine fail: the cursor is overwritten
    /// with unusable values, the buffer is given up, and every callback is
    /// refused from now on.
    pub fn poison(&mut self)
        ensures
            !final(self).is_live(),
            final(self).next() == usize::MAX,
            final(self).remaining() == usize::MAX,
            final(self).chunk() == Seq::<u8>::empty(),
            final(self).to_consume() == old(self).to_consume(),
            final(self).consumed() == old(self).consumed(),
            final(self).reader() == old(self).reader(),
    {
        self.inp.poison();
    }

    /// The engine's call before it reads anything. There is nothing to do:
    /// the buffer was filled when the adapter was made. An adapter that is
    /// no longer live refuses.
    pub fn init_source(&self) -> (done: Result<(), Fatal>)
        ensures
            done == if self.is_live() {
                Ok::<(), Fatal>(())
            } else {
                Err(Fatal::Dangling)
            },
    {
        if self.inp.live {
            Ok(())
        } else {
            Err(Fatal::Dangling)
        }
    }

    fn set_buffer_to_eoi(&mut self)
        requires
            old(self).is_live(),
        ensures
            final(self).chunk() == fake_eoi(),
            final(self).window() == fake_eoi(),
            final(self).next() == 0,
            final(self).remaining() == 4,
            final(self).to_consume() == old(self).to_consume(),
            final(self).consumed() == old(self).consumed(),
            final(self).is_live() == old(self).is_live(),
            final(self).reader() == old(self).reader(),
    {
        // The engine does not treat the end of input as an error: it reads
        // an end marker that is not in the file.
        let mut eoi: Vec<u8> = Vec::new();
        eoi.push(0xFF);
        eoi.push(0xD9);
        eoi.push(0xFF);
        eoi.push(0xD9);
        assert(eoi@ =~= fake_eoi());
        self.inp.load(eoi);
        assert(self.window() =~= self.chunk());
    }

    /// What a refill makes of the reader's answer: a buffer with bytes in
    /// it is delivered to the engine whole, an empty one means that the
    /// input has ended, and a failure is passed on.
    ///
    /// The caller has told the reader to consume what was delivered
    /// before, so nothing is left to consume but the new buffer. An adapter
    /// that is no longer live takes no buffer, and stays as it is.
    pub fn accept_chunk(&mut self, filled: Result<Vec<u8>, StreamError>) -> (done: Result<
        (),
        StreamError,
    >)
        ensures
            done == match filled {
                Ok(chunk) => if chunk@.len() > 0 {
                    Ok::<(), StreamError>(())
                } else {
                    Err(StreamError::UnexpectedEof)
                },
                Err(error) => Err(error),
            },
            final(self).consumed() == old(self).consumed(),
            final(self).is_live() == old(self).is_live(),
            final(self).reader() == old(self).reader(),
            old(self).is_live() ==> match filled {
                Ok(chunk) => {
                    &&& final(self).chunk() == chunk@
                    &&& final(self).window() == chunk@
                    &&& final(self).next() == 0
                    &&& final(self).remaining() == chunk@.len()
                    &&& final(self).to_consume() == chunk@.len()
                },
                Err(_) => {
                    &&& final(self).chunk() == old(self).chunk()
                    &&& final(self).next() == old(self).next()
                    &&& final(self).remaining() == old(self).remaining()
                    &&& final(self).to_consume() == 0
                },
            },
            !old(self).is_live() ==> {
                &&& final(self).chunk() == old(self).chunk()
                &&& final(self).next() == old(self).next()
                &&& final(self).remaining() == old(self).remaining()
                &&& final(self).to_consume() == old(self).to_consume()
            },
    {
        if !self.inp.live {
            return match filled {
                Ok(chunk) => if chunk.len() > 0 {
                    Ok(())
                } else {
                    Err(StreamError::UnexpectedEof)
                },
                Err(error) => Err(error),
            };
        }
        self.to_consume = 0;
        let chunk = match filled {
            Ok(chunk) => chunk,
            Err(error) => {
                return Err(error);
            },
        };
        let len = chunk.len();
        self.to_consume = len;
        self.inp.load(chunk);
        assert(self.window() =~= self.chunk());
        if len == 0 {
            // this is EOF
            return Err(StreamError::UnexpectedEof);
        }
        Ok(())
    }

    /// What the engine's refill makes of the reader's answer: the second
    /// half of [`fill_input_buffer`](SourceMgr::fill_input_buffer), for the
    /// answer `filled` of the reader, which was told before to consume what
    /// it had delivered.
    ///
    /// A buffer with bytes in it is delivered to the engine. When the input
    /// has ended, whether the reader says so with an empty buffer or with
    /// an error, the engine is given two end-of-image markers to read, and
    /// the warning `Warning::JpegEof` is returned. Any other failure of the
    /// reader is `Fatal::FileRead`: no end marker is put in place, the
    /// cursor stays as it was, and the adapter is not live afterwards. An
    /// adapter that is no longer live refuses with `Fatal::Dangling`.
    pub fn after_fill(&mut self, filled: Result<Vec<u8>, StreamError>) -> (done: Result<
        Option<Warning>,
        Fatal,
    >)
        ensures
            done == if !old(self).is_live() {
                Err::<Option<Warning>, Fatal>(Fatal::Dangling)
            } else {
                match filled {
                    Ok(chunk) => if chunk@.len() > 0 {
                        Ok(None)
                    } else {
                        Ok(Some(Warning::JpegEof))
                    },
                    Err(StreamError::UnexpectedEof) => Ok(Some(Warning::JpegEof)),
                    Err(StreamError::Failed) => Err(Fatal::FileRead),
                }
            },
            final(self).is_live() == (old(self).is_live() && done is Ok),
            final(self).consumed() == old(self).consumed(),
            final(self).reader() == old(self).reader(),
            match done {
                Ok(None) => {
                    &&& filled matches Ok(chunk)
                    &&& final(self).chunk() == chunk@
                    &&& final(self).window() == chunk@
                    &&& final(self).next() == 0
                    &&& final(self).remaining() == chunk@.len()
                    &&& final(self).to_consume() == chunk@.len()
                },
                Ok(Some(_)) => {
                    &&& final(self).chunk() == fake_eoi()
                    &&& final(self).window() == fake_eoi()
                    &&& final(self).next() == 0
                    &&& final(self).remaining() == 4
                    &&& final(self).to_consume() == 0
                },
                Err(fatal) => {
                    &&& final(self).chunk() == old(self).chunk()
                    &&& final(self).next() == old(self).next()
                    &&& final(self).remaining() == old(self).remaining()
                    &&& final(self).to_consume() == if fatal == Fatal::FileRead {
                        0
                    } else {
                        old(self).to_consume()
                    }
                },
            },
    {
        if !self.inp.live {
            return Err(Fatal::Dangling);
        }
        match self.accept_chunk(filled) {
            Ok(()) => Ok(None),
            Err(StreamError::UnexpectedEof) => {
                self.set_buffer_to_eoi();
                // The result reports no error: the engine carries on with
                // the marker it was given.
                Ok(Some(Warning::JpegEof))
            },
            Err(StreamError::Failed) => {
                self.inp.kill();
                Err(Fatal::FileRead)
            },
        }
    }
}

impl<R: ByteSource> SourceMgr<R> {
    /// Whether the adapter agrees with a reader that knows its bytes: the
    /// buffer that was delivered to the engine is the start of what the
    /// reader has still to consume, and it is in the reader's buffer.
    /// Nothing is asked of a reader that fetches its bytes from elsewhere.
    pub open spec fn in_sync(&self) -> bool {
        self.reader().upcoming() matches Some(upcoming) ==> {
            &&& self.to_consume() <= self.reader().buffered()
            &&& self.to_consume() <= upcoming.len()
            &&& self.to_consume() > 0 ==> self.chunk() == upcoming.take(self.to_consume() as int)
        }
    }

    /// Whether it is known what the engine reads from here on: the reader
    /// knows its bytes and agrees with the adapter, and the cursor is up to
    /// date.
    pub open spec fn knows_ahead(&self) -> bool {
        &&& self.reader().upcoming() is Some
        &&& self.in_sync()
        &&& self.in_step()
    }

    /// The bytes that the engine reads from here on, up to the end of the
    /// stream, where that is known: what the reader has still to consume,
    /// without what lies before the cursor.
    pub open spec fn ahead(&self) -> Seq<u8> {
        self.reader().upcoming()->Some_0.skip(self.next() as int)
    }

    /// An adapter that owns `reader`, with the reader's first buffer
    /// already delivered, so that the engine finds bytes to read.
    ///
    /// Fails with the reader's error if the reader fails, and with
    /// `StreamError::UnexpectedEof` if the reader has nothing to give. Of a
    /// reader that knows its bytes, which does not fail, the adapter is
    /// made exactly if there are bytes to read, and the engine then has
    /// them all ahead.
    pub fn new(reader: R) -> (made: Result<Self, StreamError>)
        ensures
            match made {
                Ok(mgr) => {
                    &&& mgr.is_live()
                    &&& mgr.remaining() > 0
                    &&& mgr.next() == 0
                    &&& mgr.in_step()
                    &&& mgr.consumed() == 0
                    &&& mgr.position() == 0
                },
                Err(_) => true,
            },
            reader.upcoming() matches Some(upcoming) ==> match made {
                Ok(mgr) => upcoming.len() > 0 && mgr.knows_ahead() && mgr.ahead() == upcoming,
                Err(error) => upcoming.len() == 0 && error == StreamError::UnexpectedEof,
            },
    {
        let mut src = SourceMgr {
            inp: InputBuffer::empty(),
            to_consume: 0,
            reader,
            consumed: Ghost(0),
        };
        match src.fill_input_buffer_impl() {
            Ok(()) => {
                proof {
                    if reader.upcoming() is Some {
                        assert(src.ahead() =~= reader.upcoming()->Some_0);
                    }
                }
                Ok(src)
            },
            Err(error) => Err(error),
        }
    }

    /// Tells the reader to consume what was delivered before, and fetches
    /// its next buffer: the first half of a refill, which makes the calls.
    ///
    /// Whatever the cursor says, the whole of the previous buffer counts
    /// as read. Of a reader that knows its bytes, the buffer that comes
    /// back is the start of what follows the previous one.
    fn fetch(&mut self) -> (filled: Result<Vec<u8>, StreamError>)
        ensures
            final(self).consumed() == old(self).consumed() + old(self).to_consume(),
            final(self).chunk() == old(self).chunk(),
            final(self).next() == old(self).next(),
            final(self).remaining() == old(self).remaining(),
            final(self).to_consume() == old(self).to_consume(),
            final(self).is_live() == old(self).is_live(),
            old(self).reader().upcoming() matches Some(upcoming) ==> old(self).in_sync() ==> {
                let rest = upcoming.skip(old(self).to_consume() as int);
                &&& final(self).reader().upcoming() == Some(rest)
                &&& filled matches Ok(chunk)
                &&& final(self).reader().buffered() == chunk@.len()
                &&& chunk@.len() <= rest.len()
                &&& chunk@ == rest.take(chunk@.len() as int)
                &&& rest.len() > 0 ==> chunk@.len() > 0
            },
    {
        // Do not hand unread bytes back here: the engine's entropy decoder
        // does not update the cursor after it has used up the buffer, so
        // the count of bytes left may be stale.
        self.reader.consume(self.to_consume);
        self.consumed = Ghost(self.consumed@ + self.to_consume as nat);
        self.reader.fill_buf()
    }

    /// Tells the reader to consume what was delivered before, fetches its
    /// next buffer and delivers it.
    ///
    /// Whatever the cursor says, the whole of the previous buffer counts
    /// as read. The reader decides the outcome; see
    /// [`accept_chunk`](Self::accept_chunk) for what is made of it.
    #[inline(never)]
    fn fill_input_buffer_impl(&mut self) -> (done: Result<(), StreamError>)
        requires
            old(self).is_live(),
        ensures
            final(self).consumed() == old(self).consumed() + old(self).to_consume(),
            final(self).is_live(),
            match done {
                Ok(()) => {
                    &&& final(self).remaining() > 0
                    &&& final(self).next() == 0
                    &&& final(self).in_step()
                },
                Err(StreamError::UnexpectedEof) => {
                    &&& final(self).to_consume() == 0
                    &&& (final(self).remaining() == 0 || (final(self).chunk() == old(self).chunk()
                        && final(self).remaining() == old(self).remaining() && final(self).next()
                        == old(self).next()))
                },
                Err(StreamError::Failed) => {
                    &&& final(self).to_consume() == 0
                    &&& final(self).chunk() == old(self).chunk()
                    &&& final(self).next() == old(self).next()
                    &&& final(self).remaining() == old(self).remaining()
                },
            },
            old(self).reader().upcoming() matches Some(upcoming) ==> old(self).in_sync() ==> {
                &&& final(self).reader().upcoming() == Some(
                    upcoming.skip(old(self).to_consume() as int),
                )
                &&& final(self).in_sync()
                &&& done is Ok <==> upcoming.len() > old(self).to_consume()
                &&& done matches Err(error) ==> error == StreamError::UnexpectedEof
                    && final(self).remaining() == 0 && final(self).chunk().len() == 0
            },
    {
        let filled = self.fetch();
        self.accept_chunk(filled)
    }

    /// The engine's call when it has read the whole buffer: delivers the
    /// reader's next buffer.
    ///
    /// When the input has ended, the call does not fail: the engine is
    /// given two end-of-image markers to read, and the warning
    /// `Warning::JpegEof` is returned for the caller to report. A failure
    /// of the reader is `Fatal::FileRead`, and an adapter that is no longer
    /// live refuses with `Fatal::Dangling`; the adapter is not live after an
    /// error. The reader decides which of these it is, and
    /// [`after_fill`](Self::after_fill) says what is made of its answer.
    ///
    /// Of a reader that knows its bytes, the next buffer starts where the
    /// last one ended, and the warning is given exactly if nothing
    /// follows the last one.
    pub fn fill_input_buffer(&mut self) -> (done: Result<Option<Warning>, Fatal>)
        ensures
            final(self).is_live() == (old(self).is_live() && done is Ok),
            !old(self).is_live() ==> {
                &&& done == Err::<Option<Warning>, Fatal>(Fatal::Dangling)
                &&& final(self).consumed() == old(self).consumed()
                &&& final(self).to_consume() == old(self).to_consume()
                &&& final(self).reader() == old(self).reader()
            },
            old(self).is_live() ==> final(self).consumed() == old(self).consumed() + old(
                self,
            ).to_consume(),
            match done {
                Ok(None) => {
                    &&& old(self).is_live()
                    &&& final(self).remaining() > 0
                    &&& final(self).next() == 0
                    &&& final(self).in_step()
                },
                Ok(Some(warning)) => {
                    &&& old(self).is_live()
                    &&& warning == Warning::JpegEof
                    &&& final(self).window() == fake_eoi()
                    &&& final(self).chunk() == fake_eoi()
                    &&& final(self).next() == 0
                    &&& final(self).remaining() == 4
                    &&& final(self).to_consume() == 0
                },
                Err(fatal) => {
                    &&& fatal == if old(self).is_live() {
                        Fatal::FileRead
                    } else {
                        Fatal::Dangling
                    }
                    &&& final(self).chunk() == old(self).chunk()
                    &&& final(self).next() == old(self).next()
                    &&& final(self).remaining() == old(self).remaining()
                },
            },
            old(self).reader().upcoming() matches Some(upcoming) ==> old(self).is_live() && old(
                self,
            ).in_sync() ==> {
                &&& final(self).reader().upcoming() == Some(
                    upcoming.skip(old(self).to_consume() as int),
                )
                &&& final(self).in_sync()
                &&& done is Ok
                &&& done == Ok::<Option<Warning>, Fatal>(None) <==> upcoming.len() > old(
                    self,
                ).to_consume()
                &&& done == Ok::<Option<Warning>, Fatal>(None) ==> final(self).knows_ahead()
                    && final(self).ahead() == upcoming.skip(old(self).to_consume() as int)
            },
    {
        if !self.inp.live {
            return Err(Fatal::Dangling);
        }
        let filled = self.fetch();
        let done = self.after_fill(filled);
        proof {
            if old(self).reader().upcoming() is Some && old(self).in_sync() && done
                == Ok::<Option<Warning>, Fatal>(None) {
                assert(self.ahead() =~= old(self).reader().upcoming()->Some_0.skip(
                    old(self).to_consume() as int,
                ));
            }
        }
        done
    }

    /// The engine's call to pass over `num_bytes` bytes of input, which
    /// may be more than the buffer holds. A count that is not positive
    /// asks for nothing.
    ///
    /// The bytes are taken from the cursor on, and a new buffer is fetched
    /// whenever the count outlasts the buffer. Where the buffer holds
    /// enough, the call succeeds without touching the reader. Otherwise the
    /// reader decides: the call fails with `Fatal::FileRead` if the reader
    /// fails or ends before the count is used up. An adapter that is no
    /// longer live refuses with `Fatal::Dangling`, and the adapter is not
    /// live after an error.
    ///
    /// Where it is known what lies ahead of the engine, the call succeeds
    /// exactly if that is at least `num_bytes` bytes, and the engine then
    /// has the rest ahead.
    pub fn skip_input_data(&mut self, num_bytes: i64) -> (done: Result<(), Fatal>)
        ensures
            final(self).is_live() == (old(self).is_live() && done is Ok),
            !old(self).is_live() ==> done == Err::<(), Fatal>(Fatal::Dangling),
            old(self).is_live() && num_bytes <= 0 ==> done is Ok,
            (!old(self).is_live() || num_bytes <= 0) ==> {
                &&& final(self).chunk() == old(self).chunk()
                &&& final(self).next() == old(self).next()
                &&& final(self).remaining() == old(self).remaining()
                &&& final(self).consumed() == old(self).consumed()
                &&& final(self).to_consume() == old(self).to_consume()
                &&& final(self).reader() == old(self).reader()
            },
            old(self).is_live() && 0 < num_bytes <= old(self).remaining() ==> {
                &&& done is Ok
                &&& final(self).chunk() == old(self).chunk()
                &&& final(self).next() == old(self).next() + num_bytes
                &&& final(self).remaining() == old(self).remaining() - num_bytes
                &&& final(self).consumed() == old(self).consumed()
                &&& final(self).to_consume() == old(self).to_consume()
                &&& final(self).reader() == old(self).reader()
            },
            done is Ok && num_bytes > 0 && old(self).to_consume() >= old(self).remaining() ==> {
                &&& final(self).position() == old(self).position() + num_bytes
                &&& final(self).to_consume() >= final(self).remaining()
            },
            done matches Err(fatal) ==> fatal == if old(self).is_live() {
                Fatal::FileRead
            } else {
                Fatal::Dangling
            },
            done is Err && old(self).is_live() ==> num_bytes > old(self).remaining(),
            old(self).is_live() && num_bytes > 0 && old(self).knows_ahead() ==> {
                &&& done is Ok <==> num_bytes <= old(self).ahead().len()
                &&& done is Ok ==> final(self).knows_ahead() && final(self).ahead() == old(
                    self,
                ).ahead().skip(num_bytes as int)
            },
    {
        if !self.inp.live {
            return Err(Fatal::Dangling);
        }
        if num_bytes <= 0 {
            return Ok(());
        }
        let mut left: u64 = num_bytes as u64;
        let mut failed = false;
        proof {
            use_type_invariant(&self.inp);
        }
        let ghost caught_up = self.to_consume >= self.inp.bytes_in_buffer;
        let ghost known = self.knows_ahead();
        let ghost mut refilled = false;
        assert(known ==> self.ahead().skip(0) =~= self.ahead());
        while left > 0 && !failed
            invariant
                num_bytes > 0,
                left <= num_bytes,
                self.is_live(),
                old(self).is_live(),
                old(self).next() + old(self).remaining() <= old(self).chunk().len(),
                caught_up == (old(self).to_consume() >= old(self).remaining()),
                known == old(self).knows_ahead(),
                failed ==> refilled,
                refilled ==> num_bytes > old(self).remaining(),
                caught_up && !failed ==> {
                    &&& self.to_consume() >= self.remaining()
                    &&& self.position() == old(self).position() + (num_bytes - left)
                },
                !refilled ==> {
                    &&& num_bytes - left <= old(self).remaining()
                    &&& self.chunk() == old(self).chunk()
                    &&& self.next() == old(self).next() + (num_bytes - left)
                    &&& self.remaining() == old(self).remaining() - (num_bytes - left)
                    &&& self.consumed() == old(self).consumed()
                    &&& self.to_consume() == old(self).to_consume()
                    &&& self.reader() == old(self).reader()
                },
                known && !failed ==> {
                    &&& self.knows_ahead()
                    &&& num_bytes - left <= old(self).ahead().len()
                    &&& self.ahead() == old(self).ahead().skip(num_bytes - left)
                },
                known && failed ==> num_bytes > old(self).ahead().len(),
            decreases
                    left,
                    (if failed {
                        0nat
                    } else if self.remaining() == 0 {
                        2nat
                    } else {
                        1nat
                    }),
        {
            let ghost gone = num_bytes - left;
            let ghost before = *self;
            let available = self.bytes_in_buffer();
            if available > 0 {
                let skip_from_buffer: usize = if (available as u64) <= left {
                    available
                } else {
                    left as usize
                };
                self.inp.advance(skip_from_buffer);
                left = left - skip_from_buffer as u64;
                proof {
                    if known {
                        let upcoming = self.reader().upcoming()->Some_0;
                        assert(self.ahead() =~= before.ahead().skip(skip_from_buffer as int));
                        assert(before.ahead().skip(skip_from_buffer as int) =~= old(
                            self,
                        ).ahead().skip(gone + skip_from_buffer));
                        assert(before.ahead().len() >= before.remaining());
                    }
                }
            }
            if left > 0 {
                let ghost at_end = *self;
                if self.fill_input_buffer_impl().is_err() {
                    failed = true;
                    proof {
                        if known {
                            assert(at_end.ahead().len() == 0);
                        }
                    }
                } else {
                    proof {
                        if known {
                            let upcoming = at_end.reader().upcoming()->Some_0;
                            assert(self.ahead() =~= upcoming.skip(at_end.to_consume() as int));
                            assert(at_end.ahead() =~= upcoming.skip(at_end.to_consume() as int));
                        }
                    }
                }
                proof {
                    refilled = true;
                }
            }
        }
        if failed {
            self.inp.kill();
            Err(Fatal::FileRead)
        } else {
            Ok(())
        }
    }

    /// Reads `count` bytes through the adapter as the engine reads: byte
    /// by byte through the cursor, asking for a new buffer each time the
    /// old one is used up. Reading stops where the input ends, with fewer
    /// bytes and the warning that the refill gave.
    ///
    /// Where it is known what lies ahead of the engine, these are the
    /// bytes that are returned: the first `count` of them, or all of them
    /// with the warning if they are fewer. The call fails with
    /// `Fatal::FileRead` only if the reader fails, and an adapter that is
    /// no longer live refuses with `Fatal::Dangling`; the adapter is not
    /// live after an error.
    pub fn pull(&mut self, count: usize) -> (pulled: Result<(Vec<u8>, Option<Warning>), Fatal>)
        ensures
            final(self).is_live() == (old(self).is_live() && pulled is Ok),
            !old(self).is_live() ==> pulled is Err,
            match pulled {
                Ok((bytes, warning)) => {
                    &&& old(self).is_live()
                    &&& bytes@.len() <= count
                    &&& warning is None ==> bytes@.len() == count
                    &&& warning matches Some(reason) ==> reason == Warning::JpegEof
                        && bytes@.len() < count && final(self).window() == fake_eoi()
                    &&& count <= old(self).remaining() ==> warning is None && bytes@ == old(
                        self,
                    ).window().take(count as int) && final(self).reader() == old(self).reader()
                },
                Err(fatal) => fatal == if old(self).is_live() {
                    Fatal::FileRead
                } else {
                    Fatal::Dangling
                },
            },
            old(self).is_live() && old(self).knows_ahead() ==> {
                &&& pulled matches Ok((bytes, warning))
                &&& warning is None <==> count <= old(self).ahead().len()
                &&& warning is None ==> bytes@ == old(self).ahead().take(count as int)
                    && final(self).knows_ahead() && final(self).ahead() == old(self).ahead().skip(
                    count as int,
                )
                &&& warning is Some ==> bytes@ == old(self).ahead()
            },
    {
        if !self.inp.live {
            return Err(Fatal::Dangling);
        }
        proof {
            use_type_invariant(&self.inp);
        }
        let mut bytes: Vec<u8> = Vec::new();
        let ghost known = self.knows_ahead();
        let ghost mut refilled = false;
        assert(known ==> self.ahead().skip(0) =~= self.ahead());
        assert(self.window().take(0) =~= bytes@);
        assert(known ==> self.ahead().take(0) =~= bytes@);
        while bytes.len() < count
            invariant
                self.is_live(),
                old(self).is_live(),
                bytes@.len() <= count,
                known == old(self).knows_ahead(),
                old(self).next() + old(self).remaining() <= old(self).chunk().len(),
                refilled ==> count > old(self).remaining(),
                !refilled ==> {
                    &&& bytes@.len() <= old(self).remaining()
                    &&& bytes@ == old(self).window().take(bytes@.len() as int)
                    &&& self.chunk() == old(self).chunk()
                    &&& self.next() == old(self).next() + bytes@.len()
                    &&& self.remaining() == old(self).remaining() - bytes@.len()
                    &&& self.reader() == old(self).reader()
                },
                known ==> {
                    &&& self.knows_ahead()
                    &&& bytes@.len() <= old(self).ahead().len()
                    &&& bytes@ == old(self).ahead().take(bytes@.len() as int)
                    &&& self.ahead() == old(self).ahead().skip(bytes@.len() as int)
                },
            decreases
                    count - bytes@.len(),
                    (if self.remaining() == 0 {
                        1nat
                    } else {
                        0nat
                    }),
        {
            let ghost before = *self;
            let ghost had = bytes@;
            match self.next_byte() {
                Some(byte) => {
                    bytes.push(byte);
                    proof {
                        assert(before.remaining() > 0);
                        if !refilled {
                            assert(had.len() + 1 <= old(self).remaining());
                            assert(byte == old(self).window()[had.len() as int]);
                            assert(bytes@ =~= old(self).window().take(bytes@.len() as int));
                            assert(self.next() == old(self).next() + bytes@.len());
                            assert(self.remaining() == old(self).remaining() - bytes@.len());
                        }
                        if known {
                            let upcoming = before.reader().upcoming()->Some_0;
                            assert(before.next() + 1 <= upcoming.len());
                            assert(before.ahead().len() > 0);
                            assert(before.ahead()[0] == byte);
                            assert(self.ahead() =~= before.ahead().skip(1));
                            assert(before.ahead().skip(1) =~= old(self).ahead().skip(
                                (had.len() + 1) as int,
                            ));
                            assert(bytes@ =~= old(self).ahead().take(bytes@.len() as int));
                        }
                    }
                },
                None => {
                    match self.fill_input_buffer() {
                        Ok(None) => {
                            proof {
                                if known {
                                    let upcoming = before.reader().upcoming()->Some_0;
                                    assert(before.ahead() =~= upcoming.skip(
                                        before.to_consume() as int,
                                    ));
                                }
                            }
                        },
                        Ok(Some(warning)) => {
                            proof {
                                if known {
                                    assert(before.ahead().len() == 0);
                                    assert(bytes@ =~= old(self).ahead());
                                }
                            }
                            return Ok((bytes, Some(warning)));
                        },
                        Err(fatal) => {
                            return Err(fatal);
                        },
                    }
                    proof {
                        refilled = true;
                    }
                },
            }
        }
        Ok((bytes, None))
    }

    /// Tells the reader to consume the bytes of the delivered buffer that
    /// the engine has read, and no others: what lies from the cursor on
    /// stays unread in the reader.
    fn return_unconsumed_data(&mut self)
        ensures
            final(self).consumed() == old(self).position(),
            final(self).position() == old(self).position(),
            final(self).to_consume() == 0,
            final(self).chunk() == old(self).chunk(),
            final(self).next() == old(self).next(),
            final(self).remaining() == old(self).remaining(),
            final(self).is_live() == old(self).is_live(),
            old(self).reader().upcoming() matches Some(upcoming) ==> old(self).in_sync() ==> {
                &&& final(self).reader().upcoming() == Some(
                    upcoming.skip(
                        minus(old(self).to_consume() as nat, old(self).remaining() as nat) as int,
                    ),
                )
                &&& final(self).in_sync()
            },
    {
        let unconsumed = self.to_consume.saturating_sub(self.inp.bytes_in_buffer);
        self.to_consume = 0;
        self.reader.consume(unconsumed);
        self.consumed = Ghost(self.consumed@ + unconsumed as nat);
    }

    /// The engine's call when decompression is complete: the reader is
    /// told to consume exactly the bytes that the engine has read. With
    /// that the adapter has done its work: it is no longer live, its cursor
    /// is poisoned, and it refuses every call of the engine that follows.
    ///
    /// Where it is known what lies ahead of the engine, this is what the
    /// reader has still to consume afterwards.
    pub fn term_source(&mut self) -> (done: Result<(), Fatal>)
        ensures
            done == if old(self).is_live() {
                Ok::<(), Fatal>(())
            } else {
                Err(Fatal::Dangling)
            },
            !final(self).is_live(),
            old(self).is_live() ==> {
                &&& final(self).consumed() == old(self).position()
                &&& final(self).to_consume() == 0
                &&& final(self).next() == usize::MAX
                &&& final(self).remaining() == usize::MAX
                &&& final(self).chunk() == Seq::<u8>::empty()
            },
            !old(self).is_live() ==> {
                &&& final(self).consumed() == old(self).consumed()
                &&& final(self).to_consume() == old(self).to_consume()
                &&& final(self).chunk() == old(self).chunk()
                &&& final(self).next() == old(self).next()
                &&& final(self).remaining() == old(self).remaining()
                &&& final(self).reader() == old(self).reader()
            },
            old(self).reader().upcoming() matches Some(upcoming) ==> old(self).is_live() && old(
                self,
            ).in_sync() ==> final(self).reader().upcoming() == Some(
                upcoming.skip(
                    minus(old(self).to_consume() as nat, old(self).remaining() as nat) as int,
                ),
            ),
            old(self).is_live() && old(self).knows_ahead() ==> final(self).reader().upcoming()
                == Some(old(self).ahead()),
    {
        if !self.inp.live {
            return Err(Fatal::Dangling);
        }
        self.return_unconsumed_data();
        self.poison();
        Ok(())
    }

    /// Hands the reader back, after telling it to consume the bytes of the
    /// delivered buffer that the engine has read: the length of what was
    /// delivered less the count that the cursor holds, and nothing if the
    /// cursor holds more.
    ///
    /// The reader then stands where the engine stopped only if the cursor
    /// was up to date: at the end of a marker, or after the engine was
    /// told to consume its input. Of a reader that knows its bytes and
    /// agrees with the adapter, what it has still to consume is what it had
    /// without that many bytes; where it is known what lies ahead of the
    /// engine, it is that.
    pub fn into_inner(self) -> (reader: R)
        ensures
            self.reader().upcoming() matches Some(upcoming) ==> self.in_sync()
                ==> reader.upcoming() == Some(
                upcoming.skip(minus(self.to_consume() as nat, self.remaining() as nat) as int),
            ),
            self.knows_ahead() ==> reader.upcoming() == Some(self.ahead()),
    {
        let mut this = self;
        this.return_unconsumed_data();
        this.poison();
        this.reader
    }
}

} // verus!
