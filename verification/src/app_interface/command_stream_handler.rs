//! Turns a byte stream from an app (BLE RX, USB serial, ...) into command frames.
use crate::app_interface::companion_protocol::{
    lemma_parse_consumption, spec_parse_command, CommandPacket, CommandPacketError,
    CommandPacketType, CommandPacketView,
};
use vstd::prelude::*;

verus! {

/// Capacity of the stream buffer, in bytes.
pub const BUFFER_SIZE: usize = 1024;

/// The single-threaded ring buffer that holds the received bytes.
#[verifier::external_body]
pub struct CommandRing {
    rb: ringbuf::LocalRb<ringbuf::storage::Array<u8, BUFFER_SIZE>>,
}

/// The bytes a ring holds, oldest first.
pub uninterp spec fn ring_contents(ring: CommandRing) -> Seq<u8>;

impl CommandRing {
    /// `LocalRb::default`: an empty ring with room for `BUFFER_SIZE` bytes.
    #[verifier::external_body]
    fn new() -> (r: Self)
        ensures
            ring_contents(r) == Seq::<u8>::empty(),
    {
        CommandRing { rb: ringbuf::LocalRb::default() }
    }

    /// `LocalRb::push_slice` (ringbuf's `RingBuffer::push_slice`): appends
    /// the longest prefix of `buf` that fits in the vacant room and returns its
    /// length. A ring never holds more than its capacity.
    #[verifier::external_body]
    fn push_slice(&mut self, buf: &[u8]) -> (n: usize)
        ensures
            ring_contents(*old(self)).len() <= BUFFER_SIZE,
            n == if buf@.len() <= BUFFER_SIZE - ring_contents(*old(self)).len() {
                buf@.len() as int
            } else {
                BUFFER_SIZE - ring_contents(*old(self)).len()
            },
            ring_contents(*final(self)) == ring_contents(*old(self)) + buf@.take(n as int),
    {
        self.rb.push_slice(buf)
    }

    /// `LocalRb::as_slices` (ringbuf's `RingBuffer::as_slices`): the held
    /// bytes, oldest first, in two pieces; the ring is left as it was.
    #[verifier::external_body]
    fn as_slices(&mut self) -> (r: (&[u8], &[u8]))
        ensures
            r.0@ + r.1@ == ring_contents(*old(self)),
            ring_contents(*final(self)) == ring_contents(*old(self)),
    {
        self.rb.as_slices()
    }

    /// `LocalRb::skip` (ringbuf's `RingBuffer::skip`): drops the `count`
    /// oldest bytes (all of them when fewer are held) and returns how many it
    /// dropped.
    #[verifier::external_body]
    fn skip(&mut self, count: usize) -> (n: usize)
        ensures
            n == if count <= ring_contents(*old(self)).len() {
                count as int
            } else {
                ring_contents(*old(self)).len() as int
            },
            ring_contents(*final(self)) == ring_contents(*old(self)).skip(n as int),
    {
        self.rb.skip(count)
    }
}

/// The next command in a stream of bytes, and the bytes left after it: frames
/// that cannot be used are dropped by the count that parsing reports, and the
/// search stops at the first usable frame or where more bytes are needed.
pub open spec fn spec_next_command(s: Seq<u8>) -> (Option<CommandPacketView>, Seq<u8>)
    decreases s.len(),
{
    if s.len() == 0 {
        (None, s)
    } else {
        match spec_parse_command(s) {
            Ok((p, n)) => (Some(p), s.skip(n)),
            Err((_, n)) => if 0 < n <= s.len() {
                spec_next_command(s.skip(n))
            } else {
                (None, s)
            },
        }
    }
}

/// A byte that starts no command is dropped and the search goes on after it.
pub proof fn lemma_next_command_drops_unknown_byte(s: Seq<u8>)
    requires
        s.len() > 0,
        CommandPacketType::spec_from_byte(s[0]) is None,
    ensures
        spec_next_command(s) == spec_next_command(s.drop_first()),
{
    assert(s.skip(1) =~= s.drop_first());
}

/// A frame that parsing rejects but asks to drop (an unknown first byte or a
/// command that is not implemented) is dropped by the count parsing reports,
/// and the search for the next command goes on after it.
pub proof fn lemma_next_command_drops_rejected_frame(s: Seq<u8>)
    requires
        spec_parse_command(s) matches Err((_, n)) && n > 0,
    ensures
        spec_parse_command(s) matches Err((_, n)) && spec_next_command(s) == spec_next_command(
            s.skip(n),
        ),
{
    lemma_parse_consumption(s);
}

/// A command that is not implemented is treated like an illegal header: its
/// first byte is dropped and the search goes on with the byte after it.
pub proof fn lemma_next_command_drops_unimplemented(s: Seq<u8>)
    requires
        spec_parse_command(s) matches Err((e, _)) && e == CommandPacketError::NotImplemented,
    ensures
        s.len() >= 1,
        spec_next_command(s) == spec_next_command(s.drop_first()),
{
    lemma_parse_consumption(s);
    assert(s.skip(1) =~= s.drop_first());
}

/// A complete frame at the start of the buffered bytes is the next command,
/// and only the bytes after it stay buffered; a buffer that holds exactly one
/// frame is emptied by taking it.
pub proof fn lemma_next_command_takes_frame(s: Seq<u8>)
    requires
        spec_parse_command(s) is Ok,
    ensures
        spec_parse_command(s) matches Ok((p, n)) && spec_next_command(s) == (Some(p), s.skip(n)),
        spec_parse_command(s) matches Ok((p, n)) ==> (n == s.len() ==> spec_next_command(s) == (
            Some(p),
            Seq::<u8>::empty(),
        )),
{
    lemma_parse_consumption(s);
    if let Ok((p, n)) = spec_parse_command(s) {
        if n == s.len() {
            assert(s.skip(n) =~= Seq::<u8>::empty());
        }
    }
}

/// What a read gives back of a write: the bytes of one complete frame,
/// written to an empty handler, are all taken, and taking the next command
/// gives that frame back and leaves the handler empty.
pub proof fn lemma_written_frame_is_next_command(frame: Seq<u8>)
    requires
        frame.len() <= BUFFER_SIZE,
        spec_parse_command(frame) matches Ok((_, n)) && n == frame.len(),
    ensures
        ({
            let buffered = Seq::<u8>::empty() + frame.take(frame.len() as int);
            &&& buffered == frame
            &&& spec_parse_command(frame) matches Ok((p, _)) && spec_next_command(buffered) == (
                Some(p),
                Seq::<u8>::empty(),
            )
        }),
{
    assert(Seq::<u8>::empty() + frame.take(frame.len() as int) =~= frame);
    lemma_next_command_takes_frame(frame);
}

/// Handle streaming data (BLE RX, USB Serial, etc.)
pub struct CommandStreamHandler {
    /// using non-threadsafe implementation (as only used per interface thread)
    buffer: CommandRing,
    /// the bytes of the frame being read, in one piece
    frame: Vec<u8>,
}

impl View for CommandStreamHandler {
    type V = Seq<u8>;

    closed spec fn view(&self) -> Seq<u8> {
        ring_contents(self.buffer)
    }
}

impl CommandStreamHandler {
    /// An empty handler.
    pub fn new() -> (r: Self)
        ensures
            r@ == Seq::<u8>::empty(),
    {
        Self { buffer: CommandRing::new(), frame: Vec::new() }
    }

    /// Buffers as much of `buf` as there is room for, from its start, and
    /// returns how many bytes it took.
    pub fn write(&mut self, buf: &[u8]) -> (n: usize)
        ensures
            n == if buf@.len() <= BUFFER_SIZE - old(self)@.len() {
                buf@.len() as int
            } else {
                BUFFER_SIZE - old(self)@.len()
            },
            final(self)@ == old(self)@ + buf@.take(n as int),
            old(self)@.len() <= final(self)@.len() <= BUFFER_SIZE,
    {
        self.buffer.push_slice(buf)
    }

    /// Copies the buffered bytes into the frame buffer, in one piece.
    fn gather_frame(&mut self)
        ensures
            final(self).frame@ == old(self)@,
            final(self)@ == old(self)@,
    {
        let (left, right) = self.buffer.as_slices();
        self.frame.clear();
        self.frame.extend_from_slice(left);
        self.frame.extend_from_slice(right);
        assert(self.frame@ =~= left@ + right@);
    }

    /// Takes the next command out of the buffered bytes. Bytes that do not
    /// begin a usable frame are dropped, by the count that parsing reports;
    /// `None` when the buffer runs out or the frame at its start is not
    /// complete yet, in which case the bytes of that frame stay buffered.
    pub fn next_command(&mut self) -> (r: Option<CommandPacket<'_>>)
        ensures
            match r {
                Some(p) => spec_next_command(old(self)@).0 == Some(p@),
                None => spec_next_command(old(self)@).0 is None,
            },
            final(self)@ == spec_next_command(old(self)@).1,
    {
        loop
            invariant
                spec_next_command(self@) == spec_next_command(old(self)@),
            ensures
                spec_next_command(self@) == spec_next_command(old(self)@),
                self@.len() > 0,
                spec_parse_command(self@) is Ok,
            decreases self@.len(),
        {
            self.gather_frame();
            if self.frame.len() == 0 {
                return None;
            }
            let (found, used) = match CommandPacket::from_bytes(self.frame.as_slice()) {
                Ok((_, used)) => (true, used),
                Err((_, used)) => (false, used),
            };
            if found {
                break ;
            }
            if used == 0 {
                return None;
            }
            proof {
                assert(0 < used <= self@.len()) by {
                    lemma_parse_consumption(self@);
                }
            }
            self.buffer.skip(used);
        }
        self.gather_frame();
        match CommandPacket::from_bytes(self.frame.as_slice()) {
            Ok((packet, used)) => {
                proof {
                    lemma_parse_consumption(self@);
                }
                self.buffer.skip(used);
                Some(packet)
            },
            Err(_) => None,
        }
    }
}

} // verus!
