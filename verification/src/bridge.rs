use vstd::prelude::*;

verus! {

/// Fixed capacity of the duplex byte channel between the client transport
/// and the verification engine: 1 MiB.
pub open spec fn duplex_capacity() -> int {
    0x100000
}


/// A frame read from the client-facing message transport, reduced to what
/// the relay decides on.
#[derive(Debug)]
pub enum Frame {
    /// A binary frame carrying protocol bytes.
    Binary(Vec<u8>),
    /// An explicit close frame.
    Close,
    /// A frame-level transport error.
    Error,
    /// Any other frame kind; such frames carry no protocol bytes.
    Other,
}

/// What the inbound relay loop does with one transport frame.
#[derive(Debug)]
pub enum RelayAction {
    /// Write these bytes, unchanged, into the duplex channel.
    Forward(Vec<u8>),
    /// Stop the inbound loop; the outbound loop is unaffected.
    Stop,
    /// Read the next frame; this one carries no protocol bytes.
    Ignore,
}

/// The inbound relay decision: a binary frame's payload is forwarded
/// unchanged; a close frame or a transport error stops the loop; every
/// other frame is ignored.
pub open spec fn inbound_decision(f: Frame) -> RelayAction {
    match f {
        Frame::Binary(data) => RelayAction::Forward(data),
        Frame::Close => RelayAction::Stop,
        Frame::Error => RelayAction::Stop,
        Frame::Other => RelayAction::Ignore,
    }
}

/// Decides what the inbound relay loop does with one transport frame.
pub fn inbound_step(f: Frame) -> (a: RelayAction)
    ensures
        a == inbound_decision(f),
{
    match f {
        Frame::Binary(data) => RelayAction::Forward(data),
        Frame::Close => RelayAction::Stop,
        Frame::Error => RelayAction::Stop,
        Frame::Other => RelayAction::Ignore,
    }
}

/// What the outbound relay loop does with one chunk read from the duplex
/// channel.
#[derive(Debug)]
pub enum OutboundAction {
    /// Send these bytes to the transport as one binary frame, unchanged.
    Send(Vec<u8>),
    /// The channel reached end of stream; stop the outbound loop.
    Stop,
}

/// Decides what the outbound relay loop does with one chunk: a zero-length
/// read is end of stream and stops the loop; any other chunk becomes one
/// binary frame with the same bytes.
pub fn outbound_step(chunk: Vec<u8>) -> (a: OutboundAction)
    ensures
        chunk@.len() == 0 ==> a is Stop,
        chunk@.len() > 0 ==> a == OutboundAction::Send(chunk),
{
    if chunk.len() == 0 {
        OutboundAction::Stop
    } else {
        OutboundAction::Send(chunk)
    }
}

/// One direction of the bounded duplex byte channel the relay feeds: a
/// queue of bytes in flight, with the history of what has already been
/// read out. A writer is accepted only up to the free capacity, which is
/// the backpressure that keeps buffering bounded.
pub struct DuplexBuffer {
    queued: Vec<u8>,
    capacity: usize,
    delivered: Ghost<Seq<u8>>,
}

impl DuplexBuffer {
    /// The channel invariant: the bytes in flight never exceed the capacity.
    pub closed spec fn wf(self) -> bool {
        self.queued@.len() <= self.capacity
    }

    /// The bytes accepted from the writer so far, in order.
    pub closed spec fn written(self) -> Seq<u8> {
        self.delivered@ + self.queued@
    }

    /// The bytes handed to the reader so far, in order.
    pub closed spec fn delivered(self) -> Seq<u8> {
        self.delivered@
    }

    /// The bytes accepted but not yet read.
    pub closed spec fn queued(self) -> Seq<u8> {
        self.queued@
    }

    /// The channel's fixed capacity.
    pub closed spec fn spec_capacity(self) -> int {
        self.capacity as int
    }

    /// An empty channel with the given capacity.
    pub fn new(capacity: usize) -> (b: DuplexBuffer)
        ensures
            b.wf(),
            b.spec_capacity() == capacity,
            b.written() == Seq::<u8>::empty(),
            b.delivered() == Seq::<u8>::empty(),
    {
        let b = DuplexBuffer { queued: Vec::new(), capacity, delivered: Ghost(Seq::empty()) };
        proof {
            assert(b.written() =~= Seq::<u8>::empty());
        }
        b
    }

    /// An empty channel with the fixed capacity the engine's duplex
    /// channel is created with.
    pub fn engine_sized() -> (b: DuplexBuffer)
        ensures
            b.wf(),
            b.spec_capacity() == duplex_capacity(),
            b.written() == Seq::<u8>::empty(),
            b.delivered() == Seq::<u8>::empty(),
    {
        DuplexBuffer::new(0x100000)
    }

    /// How many more bytes the channel can accept before the writer must
    /// wait for the reader to drain.
    pub fn free_space(&self) -> (n: usize)
        requires
            self.wf(),
        ensures
            n == self.spec_capacity() - self.queued().len(),
    {
        self.capacity - self.queued.len()
    }

    /// Accepts as much of `data` as fits: the accepted prefix is appended
    /// to the bytes in flight, and its length is returned. A full channel
    /// accepts nothing; the writer must retry after the reader drains.
    pub fn write(&mut self, data: &[u8]) -> (n: usize)
        requires
            old(self).wf(),
        ensures
            final(self).wf(),
            n == if data@.len() <= old(self).spec_capacity() - old(self).queued().len() {
                data@.len() as int
            } else {
                old(self).spec_capacity() - old(self).queued().len()
            },
            final(self).queued() == old(self).queued() + data@.take(n as int),
            final(self).delivered() == old(self).delivered(),
            final(self).written() == old(self).written() + data@.take(n as int),
            final(self).spec_capacity() == old(self).spec_capacity(),
    {
        let free: usize = self.capacity - self.queued.len();
        let n: usize = if data.len() <= free {
            data.len()
        } else {
            free
        };
        for i in 0..n
            invariant
                n <= data@.len(),
                self.queued@ == old(self).queued@ + data@.take(i as int),
                self.queued@.len() <= self.capacity,
                self.capacity == old(self).capacity,
                self.delivered@ == old(self).delivered@,
                n <= old(self).capacity - old(self).queued@.len(),
        {
            self.queued.push(data[i]);
            assert(old(self).queued@ + data@.take(i as int) + seq![data@[i as int]] =~= old(
                self,
            ).queued@ + data@.take(i as int + 1));
        }
        proof {
            assert(self.written() =~= old(self).written() + data@.take(n as int));
        }
        n
    }

    /// Hands out up to `max` bytes from the front of the queue, in order.
    /// A zero-length result on an empty queue is what the reader sees as
    /// "nothing yet"; end of stream is a matter for the writer's side.
    pub fn read(&mut self, max: usize) -> (out: Vec<u8>)
        requires
            old(self).wf(),
        ensures
            final(self).wf(),
            out@ == old(self).queued().take(
                if max <= old(self).queued().len() {
                    max as int
                } else {
                    old(self).queued().len() as int
                },
            ),
            final(self).queued() == old(self).queued().skip(out@.len() as int),
            final(self).delivered() == old(self).delivered() + out@,
            final(self).written() == old(self).written(),
            final(self).spec_capacity() == old(self).spec_capacity(),
    {
        let n: usize = if max <= self.queued.len() {
            max
        } else {
            self.queued.len()
        };
        let mut out: Vec<u8> = Vec::new();
        for i in 0..n
            invariant
                n <= self.queued@.len(),
                self.queued@ == old(self).queued@,
                self.capacity == old(self).capacity,
                self.delivered@ == old(self).delivered@,
                out@ == self.queued@.take(i as int),
        {
            out.push(self.queued[i]);
            assert(self.queued@.take(i as int) + seq![self.queued@[i as int]] =~= self.queued@.take(
                i as int + 1,
            ));
        }
        let rest: Vec<u8> = self.queued.split_off(n);
        self.queued = rest;
        proof {
            self.delivered@ = old(self).delivered@ + out@;
        }
        proof {
            assert(self.written() =~= old(self).written());
        }
        out
    }
}

/// Relay fidelity: at every state of a well-formed channel, what has been
/// read out is exactly a prefix of what was written, byte for byte and in
/// order, and the remainder is still queued; once the queue is drained,
/// reader and writer have seen the very same byte string.
pub proof fn lemma_relay_fidelity(b: DuplexBuffer)
    requires
        b.wf(),
    ensures
        b.delivered() == b.written().take(b.delivered().len() as int),
        b.written() == b.delivered() + b.queued(),
        b.queued().len() == 0 ==> b.delivered() == b.written(),
{
    assert(b.delivered() =~= b.written().take(b.delivered().len() as int));
    if b.queued().len() == 0 {
        assert(b.delivered() =~= b.written());
    }
}

} // verus!
