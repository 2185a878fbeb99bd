//! The destination adapter: the engine's push protocol (initialize the
//! buffer, drain it when full, finish) carried over a byte writer.
use vstd::prelude::*;
use vstd::slice::slice_subrange;
use crate::errormgr::Fatal;
use crate::stream::{ByteSink, StreamError};
use crate::vec::zeros;

verus! {

/// The smallest buffer that an adapter allocates, one page.
pub const MIN_BUFFER: usize = 4096;

/// The largest buffer that an adapter allocates.
pub const MAX_BUFFER: usize = 65536;

/// The size of the buffer that is allocated for a capacity hint: the hint,
/// kept between 4 KiB and 64 KiB.
pub open spec fn buffer_size_for(hint: usize) -> nat {
    if hint < MIN_BUFFER {
        MIN_BUFFER as nat
    } else if hint > MAX_BUFFER {
        MAX_BUFFER as nat
    } else {
        hint as nat
    }
}

/// Where an adapter stands in its life. Only a live adapter takes the
/// engine's calls; every other stage refuses them, and none leads back.
#[derive(Copy, Clone, Debug, PartialEq, Eq, Structural)]
pub enum Stage {
    /// In use by the engine.
    Live,
    /// The compression was finished, and all that the engine wrote was
    /// written and flushed.
    Finished,
    /// A call of the engine ended in the fatal error that is attached.
    Failed(Fatal),
    /// Given up: the cursor holds unusable values.
    Poisoned,
}

/// The stage of an adapter after a call of the engine that found it at
/// `before` and answered `done`: a stage that is not live stays, a live
/// adapter dies of an error, and a success that is the `end` of the
/// compression finishes it.
pub open spec fn stage_after(before: Stage, done: Result<(), Fatal>, end: bool) -> Stage {
    if !(before is Live) {
        before
    } else {
        match done {
            Ok(()) => if end {
                Stage::Finished
            } else {
                Stage::Live
            },
            Err(fatal) => Stage::Failed(fatal),
        }
    }
}

/// No call leads out of a stage that is not live, so a failure is final:
/// whatever the engine calls after a call that failed, and however those
/// calls are answered, the adapter stays failed with the same error and
/// never counts as finished. An adapter is finished only by a successful
/// end that found it live.
pub proof fn lemma_failure_is_final(before: Stage, done: Result<(), Fatal>, end: bool)
    ensures
        !(before is Live) ==> stage_after(before, done, end) == before,
        before is Live && done is Err ==> stage_after(before, done, end) == Stage::Failed(
            done->Err_0,
        ),
        stage_after(before, done, end) is Finished ==> before is Finished || (before is Live
            && done is Ok && end),
{
}

/// Adapter between the engine, which writes compressed bytes through a
/// cursor into a buffer, and the writer that finally receives them.
///
/// The cursor is a pair of numbers: the index in the buffer of the next
/// byte to write, and the count of free bytes after it. The engine moves
/// the cursor as it writes, and may leave it stale; only
/// [`term_destination`](Self::term_destination) reads it.
pub struct DestinationMgr<W> {
    out: OutputBuffer,
    writer: W,
    stage: Stage,
    delivered: Ghost<Seq<u8>>,
    base: Ghost<Option<Seq<u8>>>,
}

/// The buffer and the cursor into it.
struct OutputBuffer {
    next_output_byte: usize,
    free_in_buffer: usize,
    buf: Vec<u8>,
}

impl OutputBuffer {
    #[verifier::type_invariant]
    spec fn inv(&self) -> bool {
        MIN_BUFFER <= self.buf@.len() <= MAX_BUFFER
    }

    fn len(&self) -> (len: usize)
        ensures
            len == self.buf@.len(),
            MIN_BUFFER <= len <= MAX_BUFFER,
    {
        proof {
            use_type_invariant(self);
        }
        self.buf.len()
    }

    fn set_cursor(&mut self, next_output_byte: usize, free_in_buffer: usize)
        ensures
            final(self).next_output_byte == next_output_byte,
            final(self).free_in_buffer == free_in_buffer,
            final(self).buf@ == old(self).buf@,
    {
        proof {
            use_type_invariant(&*self);
        }
        self.next_output_byte = next_output_byte;
        self.free_in_buffer = free_in_buffer;
    }

    fn store_all(&mut self, bytes: &[u8])
        requires
            bytes@.len() <= old(self).buf@.len(),
        ensures
            final(self).next_output_byte == old(self).next_output_byte,
            final(self).free_in_buffer == old(self).free_in_buffer,
            final(self).buf@ == bytes@ + old(self).buf@.skip(bytes@.len() as int),
    {
        proof {
            use_type_invariant(&*self);
        }
        let mut i: usize = 0;
        assert(self.buf@ =~= bytes@.take(0) + old(self).buf@.skip(0));
        while i < bytes.len()
            invariant
                i <= bytes@.len() <= self.buf@.len(),
                self.buf@.len() == old(self).buf@.len(),
                self.next_output_byte == old(self).next_output_byte,
                self.free_in_buffer == old(self).free_in_buffer,
                MIN_BUFFER <= self.buf@.len() <= MAX_BUFFER,
                self.buf@ == bytes@.take(i as int) + old(self).buf@.skip(i as int),
            decreases bytes@.len() - i,
        {
            self.buf[i] = bytes[i];
            i += 1;
            assert(self.buf@ =~= bytes@.take(i as int) + old(self).buf@.skip(i as int));
        }
        assert(bytes@.take(i as int) =~= bytes@);
    }

    fn store(&mut self, offset: usize, byte: u8)
        requires
            offset < old(self).buf@.len(),
        ensures
            final(self).next_output_byte == old(self).next_output_byte,
            final(self).free_in_buffer == old(self).free_in_buffer,
            final(self).buf@ == old(self).buf@.update(offset as int, byte),
    {
        proof {
            use_type_invariant(&*self);
        }
        self.buf[offset] = byte;
    }
}

impl<W> DestinationMgr<W> {
    /// The buffer that the engine writes into.
    pub closed spec fn buffer(&self) -> Seq<u8> {
        self.out.buf@
    }

    /// Index in the buffer of the next byte that the engine writes.
    pub closed spec fn next(&self) -> usize {
        self.out.next_output_byte
    }

    /// Number of bytes that the engine may still write before the buffer
    /// must be drained.
    pub closed spec fn free(&self) -> usize {
        self.out.free_in_buffer
    }

    /// Every byte handed to the writer in a write that succeeded, in order.
    pub closed spec fn delivered(&self) -> Seq<u8> {
        self.delivered@
    }

    /// What the writer held when the adapter was made, if the writer keeps
    /// what it is given.
    pub closed spec fn base(&self) -> Option<Seq<u8>> {
        self.base@
    }

    /// Where the adapter stands in its life.
    pub closed spec fn stage(&self) -> Stage {
        self.stage
    }

    /// Whether the adapter may still be used. It may not once the
    /// compression was finished, a call has failed, or the adapter was
    /// poisoned.
    pub open spec fn is_live(&self) -> bool {
        self.stage() is Live
    }

    /// Whether the compression was finished with success.
    pub open spec fn is_finished(&self) -> bool {
        self.stage() is Finished
    }

    /// The writer that the adapter owns.
    pub closed spec fn writer(&self) -> W {
        self.writer
    }

    /// The size of the buffer.
    pub open spec fn capacity(&self) -> nat {
        self.buffer().len()
    }

    /// The bytes that the engine has written since the buffer was last
    /// reset, going by the cursor.
    pub open spec fn pending(&self) -> Seq<u8> {
        if self.free() <= self.capacity() {
            self.buffer().take(self.capacity() - self.free())
        } else {
            Seq::empty()
        }
    }

    /// Index in the buffer of the next byte that the engine writes.
    pub fn next_output_byte(&self) -> (next: usize)
        ensures
            next == self.next(),
    {
        self.out.next_output_byte
    }

    /// Number of bytes that the engine may still write before the buffer
    /// must be drained.
    pub fn free_in_buffer(&self) -> (free: usize)
        ensures
            free == self.free(),
    {
        self.out.free_in_buffer
    }

    /// The size of the buffer.
    pub fn buffer_len(&self) -> (len: usize)
        ensures
            len == self.capacity(),
            MIN_BUFFER <= len <= MAX_BUFFER,
    {
        self.out.len()
    }

    /// Whether the adapter has been poisoned.
    pub fn is_poisoned(&self) -> (poisoned: bool)
        ensures
            poisoned == !self.is_live(),
    {
        !self.live()
    }

    /// Where the adapter stands in its life.
    pub fn current_stage(&self) -> (stage: Stage)
        ensures
            stage == self.stage(),
    {
        self.stage
    }

    fn live(&self) -> (live: bool)
        ensures
            live == self.is_live(),
    {
        match self.stage {
            Stage::Live => true,
            _ => false,
        }
    }

    /// The engine's side of the cursor: records where the engine says it
    /// stands. Any pair of numbers is accepted, as from the engine.
    pub fn set_cursor(&mut self, next_output_byte: usize, free_in_buffer: usize)
        ensures
            final(self).next() == next_output_byte,
            final(self).free() == free_in_buffer,
            final(self).buffer() == old(self).buffer(),
            final(self).delivered() == old(self).delivered(),
            final(self).stage() == old(self).stage(),
            final(self).writer() == old(self).writer(),
            final(self).base() == old(self).base(),
    {
        self.out.set_cursor(next_output_byte, free_in_buffer);
    }

    /// The engine's side of the buffer: stores one byte at `offset`,
    /// without moving the cursor. Returns whether `offset` lies in the
    /// buffer; nothing is stored if it does not.
    pub fn store(&mut self, offset: usize, byte: u8) -> (stored: bool)
        ensures
            stored == (offset < old(self).capacity()),
            final(self).buffer() == if stored {
                old(self).buffer().update(offset as int, byte)
            } else {
                old(self).buffer()
            },
            final(self).next() == old(self).next(),
            final(self).free() == old(self).free(),
            final(self).delivered() == old(self).delivered(),
            final(self).stage() == old(self).stage(),
            final(self).writer() == old(self).writer(),
            final(self).base() == old(self).base(),
    {
        if offset < self.out.len() {
            self.out.store(offset, byte);
            true
        } else {
            false
        }
    }

    /// The engine's side of the buffer: stores `bytes` at the start of the
    /// buffer, without moving the cursor. Returns whether they fit; nothing
    /// is stored if they do not.
    pub fn store_all(&mut self, bytes: &[u8]) -> (stored: bool)
        ensures
            stored == (bytes@.len() <= old(self).capacity()),
            final(self).buffer() == if stored {
                bytes@ + old(self).buffer().skip(bytes@.len() as int)
            } else {
                old(self).buffer()
            },
            final(self).next() == old(self).next(),
            final(self).free() == old(self).free(),
            final(self).delivered() == old(self).delivered(),
            final(self).stage() == old(self).stage(),
            final(self).writer() == old(self).writer(),
            final(self).base() == old(self).base(),
    {
        if bytes.len() <= self.out.len() {
            self.out.store_all(bytes);
            true
        } else {
            false
        }
    }

    /// Whether the cursor agrees with the buffer: it has free space, and
    /// the free space ends where the buffer ends.
    pub open spec fn in_step(&self) -> bool {
        self.free() > 0 && self.next() + self.free() == self.capacity()
    }

    /// Every byte that the engine has written through the cursor and that
    /// the writer did not refuse: what was delivered, then what is pending.
    pub open spec fn stream(&self) -> Seq<u8> {
        self.delivered() + self.pending()
    }

    /// Whether the cursor has free space and agrees with the buffer.
    pub fn cursor_in_step(&self) -> (in_step: bool)
        ensures
            in_step == self.in_step(),
    {
        let len = self.out.len();
        let free = self.out.free_in_buffer;
        free > 0 && free <= len && self.out.next_output_byte == len - free
    }

    /// The engine's side of the cursor: writes one byte where the cursor
    /// points and moves the cursor past it. Returns whether it did;
    /// nothing changes when the cursor has no free space or points
    /// outside the buffer.
    pub fn put(&mut self, byte: u8) -> (written: bool)
        ensures
            written == (old(self).free() > 0 && old(self).next() < old(self).capacity()),
            final(self).delivered() == old(self).delivered(),
            final(self).stage() == old(self).stage(),
            final(self).writer() == old(self).writer(),
            final(self).base() == old(self).base(),
            final(self).capacity() == old(self).capacity(),
            written ==> {
                &&& final(self).buffer() == old(self).buffer().update(old(self).next() as int, byte)
                &&& final(self).next() == old(self).next() + 1
                &&& final(self).free() == old(self).free() - 1
            },
            !written ==> {
                &&& final(self).buffer() == old(self).buffer()
                &&& final(self).next() == old(self).next()
                &&& final(self).free() == old(self).free()
            },
            old(self).in_step() ==> written && final(self).pending() == old(self).pending().push(
                byte,
            ) && final(self).next() + final(self).free() == final(self).capacity(),
    {
        let len = self.out.len();
        let next = self.out.next_output_byte;
        let free = self.out.free_in_buffer;
        if free > 0 && next < len {
            self.out.store(next, byte);
            self.out.set_cursor(next + 1, free - 1);
            proof {
                if old(self).in_step() {
                    assert(self.pending() =~= old(self).pending().push(byte));
                }
            }
            true
        } else {
            false
        }
    }

    /// Make any further use by the engine fail: the cursor is overwritten
    /// with unusable values, and every callback is refused from now on.
    pub fn poison(&mut self)
        ensures
            final(self).stage() == Stage::Poisoned,
            final(self).next() == usize::MAX,
            final(self).free() == usize::MAX,
            final(self).delivered() == old(self).delivered(),
            final(self).buffer() == old(self).buffer(),
            final(self).writer() == old(self).writer(),
            final(self).base() == old(self).base(),
    {
        self.out.set_cursor(usize::MAX, usize::MAX);
        self.stage = Stage::Poisoned;
    }

    /// Hands the writer back, after the adapter was poisoned for whoever
    /// still holds its cursor. Call it after
    /// [`term_destination`](Self::term_destination): bytes still in the
    /// buffer are not written.
    pub fn into_inner(self) -> (writer: W)
        ensures
            writer == self.writer(),
    {
        let mut this = self;
        this.poison();
        this.writer
    }

    fn reset_buffer(&mut self)
        ensures
            final(self).next() == 0,
            final(self).free() == old(self).capacity(),
            final(self).buffer() == old(self).buffer(),
            final(self).delivered() == old(self).delivered(),
            final(self).stage() == old(self).stage(),
            final(self).writer() == old(self).writer(),
            final(self).base() == old(self).base(),
    {
        let len = self.out.len();
        self.out.set_cursor(0, len);
    }

    /// How many bytes of the buffer a drain writes: all of it if the buffer
    /// is `full`, else what lies before the cursor's free space. A cursor
    /// that claims more free space than the buffer has is an error.
    pub fn bytes_to_write(&self, full: bool) -> (used: Result<usize, Fatal>)
        ensures
            used == self.spec_bytes_to_write(full),
    {
        let len = self.out.len();
        if full {
            Ok(len)
        } else if self.out.free_in_buffer <= len {
            Ok(len - self.out.free_in_buffer)
        } else {
            Err(Fatal::BufferSize)
        }
    }

    /// How many bytes of the buffer a drain writes.
    pub open spec fn spec_bytes_to_write(&self, full: bool) -> Result<usize, Fatal> {
        if full {
            Ok(self.capacity() as usize)
        } else if self.free() <= self.capacity() {
            Ok((self.capacity() - self.free()) as usize)
        } else {
            Err(Fatal::BufferSize)
        }
    }
}

impl<W: ByteSink> DestinationMgr<W> {
    /// Whether the writer holds what the adapter has delivered: a writer
    /// that keeps what it is given holds the bytes that it had when the
    /// adapter was made, and after them the bytes that were delivered.
    /// Nothing is asked of a writer that passes its bytes on.
    pub open spec fn in_sync(&self) -> bool {
        self.base() matches Some(base) ==> self.writer().contents() == Some(
            base + self.delivered(),
        )
    }

    /// An adapter that owns `writer` and a buffer of the size that
    /// `capacity` asks for, kept between 4 KiB and 64 KiB. The cursor is
    /// empty until the engine calls
    /// [`init_destination`](Self::init_destination).
    pub fn new(writer: W, capacity: usize) -> (mgr: Self)
        ensures
            mgr.capacity() == buffer_size_for(capacity),
            mgr.buffer() == zeros(buffer_size_for(capacity)),
            mgr.next() == 0,
            mgr.free() == 0,
            mgr.delivered() == Seq::<u8>::empty(),
            mgr.stage() == Stage::Live,
            mgr.writer() == writer,
            mgr.base() == writer.contents(),
            mgr.in_sync(),
    {
        let size: usize = if capacity < MIN_BUFFER {
            MIN_BUFFER
        } else if capacity > MAX_BUFFER {
            MAX_BUFFER
        } else {
            capacity
        };
        let buf: Vec<u8> = vec![0u8; size];
        assert(buf@ =~= zeros(buffer_size_for(capacity)));
        DestinationMgr {
            out: OutputBuffer { next_output_byte: 0, free_in_buffer: 0, buf },
            writer,
            stage: Stage::Live,
            delivered: Ghost(Seq::empty()),
            base: Ghost(writer.contents()),
        }
    }

    /// What becomes of a drain once the writer has answered: the second
    /// half of a drain, for the answer `written` to the write of the bytes
    /// that were due (see [`bytes_to_write`](Self::bytes_to_write)), or
    /// `Ok` where none were.
    ///
    /// When the writer has taken the bytes, they count as delivered and
    /// the cursor points at the whole buffer again. A failure of the writer
    /// is `Fatal::FileWrite`, and a cursor that claims more free space than
    /// the buffer has is `Fatal::BufferSize`, whatever the writer said. An
    /// adapter that is no longer live refuses with `Fatal::Dangling`. An
    /// error leaves the cursor and the count of what was delivered as they
    /// were, and the adapter is not live after it.
    pub fn after_write(&mut self, full: bool, written: Result<(), StreamError>) -> (done: Result<
        (),
        Fatal,
    >)
        ensures
            done == if !old(self).is_live() {
                Err::<(), Fatal>(Fatal::Dangling)
            } else {
                match old(self).spec_bytes_to_write(full) {
                    Err(early) => Err(early),
                    Ok(_) => match written {
                        Ok(()) => Ok(()),
                        Err(_) => Err(Fatal::FileWrite),
                    },
                }
            },
            final(self).stage() == stage_after(old(self).stage(), done, false),
            final(self).buffer() == old(self).buffer(),
            final(self).writer() == old(self).writer(),
            final(self).base() == old(self).base(),
            match done {
                Ok(()) => {
                    &&& old(self).spec_bytes_to_write(full) matches Ok(used)
                    &&& final(self).delivered() == old(self).delivered() + old(self).buffer().take(
                        used as int,
                    )
                    &&& final(self).next() == 0
                    &&& final(self).free() == old(self).capacity()
                },
                Err(_) => {
                    &&& final(self).delivered() == old(self).delivered()
                    &&& final(self).next() == old(self).next()
                    &&& final(self).free() == old(self).free()
                },
            },
    {
        if !self.live() {
            return Err(Fatal::Dangling);
        }
        let used = match self.bytes_to_write(full) {
            Ok(used) => used,
            Err(fatal) => {
                self.stage = Stage::Failed(fatal);
                return Err(fatal);
            },
        };
        match written {
            Ok(()) => {
                self.delivered = Ghost(self.delivered@ + self.out.buf@.take(used as int));
                self.reset_buffer();
                Ok(())
            },
            Err(_) => {
                self.stage = Stage::Failed(Fatal::FileWrite);
                Err(Fatal::FileWrite)
            },
        }
    }

    /// What becomes of the end of a compression once the writer has
    /// answered the flush: the last step of
    /// [`term_destination`](Self::term_destination), for the answer
    /// `flushed`.
    ///
    /// When the writer has flushed, the cursor is left with no free space.
    /// A failure of the writer is `Fatal::FileWrite`, and an adapter that
    /// is no longer live refuses with `Fatal::Dangling`; both leave the
    /// cursor as it was. Either way the adapter is not live afterwards.
    pub fn after_flush(&mut self, flushed: Result<(), StreamError>) -> (done: Result<(), Fatal>)
        ensures
            done == if !old(self).is_live() {
                Err::<(), Fatal>(Fatal::Dangling)
            } else {
                match flushed {
                    Ok(()) => Ok(()),
                    Err(_) => Err(Fatal::FileWrite),
                }
            },
            final(self).stage() == stage_after(old(self).stage(), done, true),
            final(self).buffer() == old(self).buffer(),
            final(self).delivered() == old(self).delivered(),
            final(self).writer() == old(self).writer(),
            final(self).base() == old(self).base(),
            final(self).next() == old(self).next(),
            final(self).free() == if done is Ok {
                0
            } else {
                old(self).free()
            },
    {
        if !self.live() {
            return Err(Fatal::Dangling);
        }
        match flushed {
            Ok(()) => {
                let next = self.out.next_output_byte;
                self.out.set_cursor(next, 0);
                self.stage = Stage::Finished;
                Ok(())
            },
            Err(_) => {
                self.stage = Stage::Failed(Fatal::FileWrite);
                Err(Fatal::FileWrite)
            },
        }
    }

    /// Writes the buffer to the writer and resets the cursor: the whole
    /// buffer if `full`, else the bytes before the cursor's free space.
    ///
    /// Nothing is written where no byte is due. Otherwise the writer
    /// decides; see [`after_write`](Self::after_write) for what is made of
    /// its answer.
    fn write_buffer(&mut self, full: bool) -> (done: Result<(), Fatal>)
        requires
            old(self).is_live(),
        ensures
            final(self).buffer() == old(self).buffer(),
            final(self).stage() == stage_after(old(self).stage(), done, false),
            final(self).base() == old(self).base(),
            old(self).base() is Some && old(self).in_sync() && old(self).spec_bytes_to_write(full)
                is Ok ==> done is Ok,
            match done {
                Ok(()) => {
                    &&& old(self).spec_bytes_to_write(full) matches Ok(used)
                    &&& final(self).delivered() == old(self).delivered() + old(self).buffer().take(
                        used as int,
                    )
                    &&& final(self).next() == 0
                    &&& final(self).free() == old(self).capacity()
                    &&& old(self).in_sync() ==> final(self).in_sync()
                },
                Err(fatal) => {
                    &&& final(self).delivered() == old(self).delivered()
                    &&& final(self).next() == old(self).next()
                    &&& final(self).free() == old(self).free()
                    &&& match old(self).spec_bytes_to_write(full) {
                        Ok(used) => fatal == Fatal::FileWrite && used > 0,
                        Err(early) => fatal == early && final(self).writer() == old(self).writer(),
                    }
                },
            },
    {
        let used = match self.bytes_to_write(full) {
            Ok(used) => used,
            Err(_) => 0,
        };
        let written = if used > 0 {
            self.writer.write_all(slice_subrange(self.out.buf.as_slice(), 0, used))
        } else {
            Ok(())
        };
        proof {
            if old(self).in_sync() && self.base() is Some && written is Ok {
                let base = self.base()->Some_0;
                assert(base + old(self).delivered() + self.buffer().take(used as int) =~= base + (
                old(self).delivered() + self.buffer().take(used as int)));
                assert(self.out.buf@.take(0) =~= Seq::<u8>::empty());
                assert(old(self).delivered() + Seq::<u8>::empty() =~= old(self).delivered());
            }
        }
        self.after_write(full, written)
    }

    /// The engine's call before it writes anything: points the cursor at
    /// the whole buffer. An adapter that is no longer live refuses.
    pub fn init_destination(&mut self) -> (done: Result<(), Fatal>)
        ensures
            done == if old(self).is_live() {
                Ok::<(), Fatal>(())
            } else {
                Err(Fatal::Dangling)
            },
            final(self).buffer() == old(self).buffer(),
            final(self).delivered() == old(self).delivered(),
            final(self).stage() == old(self).stage(),
            final(self).writer() == old(self).writer(),
            final(self).base() == old(self).base(),
            final(self).next() == if old(self).is_live() {
                0
            } else {
                old(self).next()
            },
            final(self).free() == if old(self).is_live() {
                old(self).capacity() as usize
            } else {
                old(self).free()
            },
    {
        if !self.live() {
            return Err(Fatal::Dangling);
        }
        self.reset_buffer();
        Ok(())
    }

    /// The engine's call when it has filled the buffer: writes the entire
    /// buffer, whatever the cursor says, and points the cursor at the
    /// whole buffer again.
    ///
    /// An adapter that is no longer live refuses with `Fatal::Dangling`.
    /// Otherwise the writer decides, and
    /// [`after_write`](Self::after_write) says what is made of its answer:
    /// the call fails only if the writer does, with `Fatal::FileWrite`. A
    /// call that fails leaves the cursor as it was, and the adapter is not
    /// live after it.
    pub fn empty_output_buffer(&mut self) -> (done: Result<(), Fatal>)
        ensures
            final(self).buffer() == old(self).buffer(),
            final(self).stage() == stage_after(old(self).stage(), done, false),
            final(self).base() == old(self).base(),
            old(self).is_live() && old(self).base() is Some && old(self).in_sync() ==> done is Ok,
            match done {
                Ok(()) => {
                    &&& old(self).is_live()
                    &&& final(self).delivered() == old(self).delivered() + old(self).buffer()
                    &&& final(self).next() == 0
                    &&& final(self).free() == old(self).capacity()
                    &&& old(self).in_sync() ==> final(self).in_sync()
                },
                Err(fatal) => {
                    &&& fatal == if old(self).is_live() {
                        Fatal::FileWrite
                    } else {
                        Fatal::Dangling
                    }
                    &&& final(self).delivered() == old(self).delivered()
                    &&& final(self).next() == old(self).next()
                    &&& final(self).free() == old(self).free()
                    &&& !old(self).is_live() ==> final(self).writer() == old(self).writer()
                },
            },
    {
        if !self.live() {
            return Err(Fatal::Dangling);
        }
        assert(self.out.buf@.take(self.out.buf@.len() as int) =~= self.out.buf@);
        self.write_buffer(true)
    }

    /// Sends `data` through the adapter as the engine sends what it
    /// produces: byte by byte through the cursor, draining the buffer each
    /// time a byte fills it.
    ///
    /// When the call succeeds, [`stream`](Self::stream) has grown by exactly
    /// `data`, whatever the size of the buffer, so that a
    /// [`term_destination`](Self::term_destination) that follows has
    /// delivered all of it. An adapter that is no longer live refuses with
    /// `Fatal::Dangling`, and a cursor out of step with the buffer (before
    /// [`init_destination`](Self::init_destination)) is refused with
    /// `Fatal::BufferSize`; both leave cursor, buffer and writer as they
    /// were. Otherwise the call fails only if the writer does, with
    /// `Fatal::FileWrite`. The adapter is not live after an error.
    pub fn emit(&mut self, data: &[u8]) -> (done: Result<(), Fatal>)
        ensures
            final(self).stage() == stage_after(old(self).stage(), done, false),
            final(self).capacity() == old(self).capacity(),
            final(self).base() == old(self).base(),
            !old(self).is_live() ==> done == Err::<(), Fatal>(Fatal::Dangling),
            old(self).is_live() && !old(self).in_step() ==> done == Err::<(), Fatal>(
                Fatal::BufferSize,
            ),
            old(self).is_live() && old(self).in_step() && data@.len() < old(self).free() ==> {
                &&& done is Ok
                &&& final(self).delivered() == old(self).delivered()
                &&& final(self).writer() == old(self).writer()
            },
            old(self).is_live() && old(self).in_step() && old(self).base() is Some && old(
                self,
            ).in_sync() ==> done is Ok,
            match done {
                Ok(()) => {
                    &&& old(self).is_live()
                    &&& old(self).in_step()
                    &&& final(self).in_step()
                    &&& final(self).stream() == old(self).stream() + data@
                    &&& old(self).in_sync() ==> final(self).in_sync()
                },
                Err(Fatal::FileWrite) => old(self).is_live() && old(self).in_step() && data@.len()
                    >= old(self).free(),
                Err(_) => {
                    &&& !(old(self).is_live() && old(self).in_step())
                    &&& final(self).buffer() == old(self).buffer()
                    &&& final(self).delivered() == old(self).delivered()
                    &&& final(self).next() == old(self).next()
                    &&& final(self).free() == old(self).free()
                    &&& final(self).writer() == old(self).writer()
                },
            },
    {
        if !self.live() {
            return Err(Fatal::Dangling);
        }
        if !self.cursor_in_step() {
            self.stage = Stage::Failed(Fatal::BufferSize);
            return Err(Fatal::BufferSize);
        }
        let mut i: usize = 0;
        assert(data@.take(0) =~= Seq::<u8>::empty());
        assert(self.stream() + Seq::<u8>::empty() =~= self.stream());
        while i < data.len()
            invariant
                i <= data@.len(),
                self.is_live(),
                self.in_step(),
                self.capacity() == old(self).capacity(),
                self.base() == old(self).base(),
                self.stream() == old(self).stream() + data@.take(i as int),
                old(self).is_live(),
                old(self).in_step(),
                old(self).in_sync() ==> self.in_sync(),
                i < old(self).free() ==> self.delivered() == old(self).delivered() && self.free()
                    == old(self).free() - i && self.writer() == old(self).writer(),
            decreases data@.len() - i,
        {
            let ghost before = self.stream();
            let written = self.put(data[i]);
            assert(self.stream() =~= before.push(data@[i as int]));
            assert(data@.take(i + 1) =~= data@.take(i as int).push(data@[i as int]));
            assert(self.stream() =~= old(self).stream() + data@.take(i + 1));
            i += 1;
            if self.out.free_in_buffer == 0 {
                assert(self.pending() =~= self.buffer());
                match self.empty_output_buffer() {
                    Ok(()) => {
                        assert(self.pending() =~= Seq::<u8>::empty());
                        assert(self.stream() =~= old(self).stream() + data@.take(i as int));
                    },
                    Err(fatal) => {
                        return Err(fatal);
                    },
                }
            }
        }
        assert(data@.take(i as int) =~= data@);
        Ok(())
    }

    /// The engine's call when compression is complete: writes the bytes
    /// before the cursor's free space, flushes the writer, and leaves the
    /// cursor with no free space. With that the adapter has done its work:
    /// it is no longer live, whether the call succeeded or not, and refuses
    /// every call of the engine that follows.
    ///
    /// An adapter that is no longer live refuses with `Fatal::Dangling`,
    /// and a cursor that claims more free space than the buffer has is
    /// refused with `Fatal::BufferSize`; neither touches the writer.
    /// Otherwise the writer decides, in the write and in the flush, and
    /// [`after_write`](Self::after_write) and
    /// [`after_flush`](Self::after_flush) say what is made of its answers:
    /// the call fails only if the writer does, with `Fatal::FileWrite`.
    pub fn term_destination(&mut self) -> (done: Result<(), Fatal>)
        ensures
            final(self).buffer() == old(self).buffer(),
            final(self).base() == old(self).base(),
            final(self).stage() == stage_after(old(self).stage(), done, true),
            !old(self).is_live() ==> done == Err::<(), Fatal>(Fatal::Dangling),
            old(self).is_live() && old(self).free() > old(self).capacity() ==> done == Err::<
                (),
                Fatal,
            >(Fatal::BufferSize),
            old(self).is_live() && old(self).free() <= old(self).capacity() && old(self).base()
                is Some && old(self).in_sync() ==> done is Ok,
            match done {
                Ok(()) => {
                    &&& old(self).is_live()
                    &&& old(self).free() <= old(self).capacity()
                    &&& final(self).delivered() == old(self).delivered() + old(self).pending()
                    &&& final(self).delivered() == old(self).stream()
                    &&& final(self).next() == 0
                    &&& final(self).free() == 0
                    &&& old(self).in_sync() ==> final(self).in_sync()
                },
                Err(Fatal::Dangling) => {
                    &&& !old(self).is_live()
                    &&& final(self).delivered() == old(self).delivered()
                    &&& final(self).next() == old(self).next()
                    &&& final(self).free() == old(self).free()
                    &&& final(self).writer() == old(self).writer()
                },
                Err(Fatal::BufferSize) => {
                    &&& old(self).is_live()
                    &&& old(self).free() > old(self).capacity()
                    &&& final(self).delivered() == old(self).delivered()
                    &&& final(self).next() == old(self).next()
                    &&& final(self).free() == old(self).free()
                    &&& final(self).writer() == old(self).writer()
                },
                Err(Fatal::FileWrite) => {
                    &&& old(self).is_live()
                    &&& old(self).free() <= old(self).capacity()
                    &&& (final(self).delivered() == old(self).delivered() || final(self).delivered()
                        == old(self).delivered() + old(self).pending())
                },
                Err(_) => false,
            },
    {
        if !self.live() {
            return Err(Fatal::Dangling);
        }
        match self.write_buffer(false) {
            Ok(()) => {},
            Err(fatal) => {
                return Err(fatal);
            },
        }
        let flushed = self.writer.flush();
        self.after_flush(flushed)
    }
}

} // verus!
