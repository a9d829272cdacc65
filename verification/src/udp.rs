use vstd::prelude::*;

use crate::addr::Ipv6Address;
use crate::error::{check_status, Error};

verus! {

/// What a socket's receive buffer holds: its capacity, the data of the last
/// message that has not been taken yet (empty when there is none), and the
/// address and port that message came from.
#[verifier::ext_equal]
pub struct UdpReceiveView {
    pub capacity: usize,
    pub data: Seq<u8>,
    pub from: [u8; 16],
    pub port: u16,
}

/// Number of bytes of a message that the buffer keeps: the message length,
/// cut to the capacity taken as a 16-bit length.
pub open spec fn received_len(capacity: usize, message_len: nat) -> nat {
    let cap = (capacity as u16) as nat;
    if cap < message_len {
        cap
    } else {
        message_len
    }
}

impl UdpReceiveView {
    /// The buffer after a message arrived: it holds the message's first
    /// bytes, and its sender, in place of what it held.
    pub open spec fn after_message(self, message: Seq<u8>, from: [u8; 16], port: u16) -> UdpReceiveView {
        UdpReceiveView {
            data: message.take(received_len(self.capacity, message.len()) as int),
            from,
            port,
            ..self
        }
    }

    /// The buffer after its message was taken: empty, sender unchanged.
    pub open spec fn after_take(self) -> UdpReceiveView {
        UdpReceiveView { data: Seq::empty(), ..self }
    }

    /// Whether `r` is what taking the message gives: nothing (zero length,
    /// the unspecified address, port zero) when the buffer is empty, else
    /// the message length and its sender's address and port.
    pub open spec fn is_take_result(self, r: (usize, Ipv6Address, u16)) -> bool {
        if self.data.len() == 0 {
            &&& r.0 == 0
            &&& r.1.octets@ == Seq::new(16, |i: int| 0u8)
            &&& r.2 == 0
        } else {
            &&& r.0 == self.data.len()
            &&& r.1.octets == self.from
            &&& r.2 == self.port
        }
    }
}

/// A buffer whose capacity fits a 16-bit length keeps a whole message when
/// the message fits the capacity, else exactly as many bytes as the
/// capacity; it never keeps more bytes than the message has.
pub proof fn lemma_received_len(capacity: usize, message_len: nat)
    requires
        message_len <= u16::MAX,
    ensures
        received_len(capacity, message_len) <= message_len,
        capacity <= u16::MAX && message_len <= capacity ==> received_len(capacity, message_len)
            == message_len,
        capacity <= u16::MAX && capacity < message_len ==> received_len(capacity, message_len)
            == capacity,
{
    if capacity <= u16::MAX {
        assert((capacity as u16) as usize == capacity) by (bit_vector)
            requires
                capacity <= 0xffffusize,
        ;
    }
}

/// Taking the message after one arrived gives its length (cut to the
/// capacity), its sender's address and port, and the message's first bytes;
/// taking again right after gives nothing.
pub proof fn lemma_receive_after_message(
    v: UdpReceiveView,
    message: Seq<u8>,
    from: [u8; 16],
    port: u16,
)
    requires
        received_len(v.capacity, message.len()) > 0,
    ensures
        v.after_message(message, from, port).data == message.take(
            received_len(v.capacity, message.len()) as int,
        ),
        v.after_message(message, from, port).data.len() == received_len(v.capacity, message.len()),
        v.after_message(message, from, port).is_take_result(
            (
                received_len(v.capacity, message.len()) as usize,
                Ipv6Address { octets: from },
                port,
            ),
        ),
        v.after_message(message, from, port).after_take().data.len() == 0,
{
}

/// The receive side of a UDP socket: the last message that arrived, kept
/// until it is taken.
pub struct UdpReceiveBuffer {
    receive_len: usize,
    receive_from: [u8; 16],
    receive_port: u16,
    max: usize,
    receive_buffer: Vec<u8>,
}

impl View for UdpReceiveBuffer {
    type V = UdpReceiveView;

    closed spec fn view(&self) -> UdpReceiveView {
        UdpReceiveView {
            capacity: self.max,
            data: self.receive_buffer@.take(self.receive_len as int),
            from: self.receive_from,
            port: self.receive_port,
        }
    }
}

impl UdpReceiveBuffer {
    /// The buffer's storage matches its capacity and length.
    pub closed spec fn wf(&self) -> bool {
        &&& self.receive_buffer@.len() == self.max
        &&& self.receive_len <= self.max
    }

    /// An empty buffer of `capacity` bytes; nothing received yet, from the
    /// unspecified address and port zero.
    pub fn new(capacity: usize) -> (r: UdpReceiveBuffer)
        ensures
            r.wf(),
            r@.capacity == capacity,
            r@.data.len() == 0,
            r@.from@ == Seq::new(16, |i: int| 0u8),
            r@.port == 0,
    {
        let mut receive_buffer: Vec<u8> = Vec::new();
        let mut i: usize = 0;
        while i < capacity
            invariant
                i <= capacity,
                receive_buffer@.len() == i,
            decreases capacity - i,
        {
            receive_buffer.push(0);
            i += 1;
        }
        let receive_from = [0u8; 16];
        assert(receive_from@ =~= Seq::new(16, |i: int| 0u8));
        UdpReceiveBuffer {
            receive_len: 0,
            receive_from,
            receive_port: 0,
            max: capacity,
            receive_buffer,
        }
    }

    /// Length of the message that the buffer holds; zero when there is none.
    pub fn pending_len(&self) -> (r: usize)
        requires
            self.wf(),
        ensures
            r == self@.data.len(),
    {
        self.receive_len
    }

    /// Records a message that arrived from `from`, `port`, keeping as much
    /// of it as the buffer takes.
    pub fn on_message(&mut self, message: &[u8], from: [u8; 16], port: u16)
        requires
            old(self).wf(),
            message@.len() <= u16::MAX,
        ensures
            final(self).wf(),
            final(self)@ == old(self)@.after_message(message@, from, port),
            old(self)@.capacity <= u16::MAX && message@.len() <= old(self)@.capacity
                ==> final(self)@.data == message@,
            old(self)@.capacity <= u16::MAX && old(self)@.capacity < message@.len()
                ==> final(self)@.data == message@.take(old(self)@.capacity as int),
            final(self)@.from == from,
            final(self)@.port == port,
    {
        let cap = #[verifier::truncate] (self.max as u16);
        let mlen = message.len() as u16;
        let len: u16 = if cap < mlen {
            cap
        } else {
            mlen
        };
        let m = self.max;
        assert((m as u16) as usize <= m) by (bit_vector);
        let n = len as usize;
        let mut i: usize = 0;
        while i < n
            invariant
                n <= message@.len(),
                n <= self.max,
                self.max == old(self).max,
                i <= n,
                self.receive_buffer@.len() == self.max,
                forall|j: int| 0 <= j < i ==> self.receive_buffer@[j] == message@[j],
            decreases n - i,
        {
            self.receive_buffer.set(i, message[i]);
            i += 1;
        }
        self.receive_port = port;
        self.receive_from = from;
        self.receive_len = n;
        assert(mlen == message@.len());
        assert(n == received_len(old(self)@.capacity, message@.len()));
        assert(self.receive_buffer@.take(n as int) =~= message@.take(n as int));
        assert(self@ =~= old(self)@.after_message(message@, from, port));
    }

    /// Takes the message that the buffer holds, copying its data to the
    /// front of `out`; gives zero length, the unspecified address and port
    /// zero when there is none.
    pub fn receive(&mut self, out: &mut [u8]) -> (r: Result<(usize, Ipv6Address, u16), Error>)
        requires
            old(self).wf(),
            old(self)@.data.len() <= old(out)@.len(),
        ensures
            final(self).wf(),
            r matches Ok(t) && old(self)@.is_take_result(t),
            final(self)@ == old(self)@.after_take(),
            final(out)@ == old(self)@.data + old(out)@.skip(old(self)@.data.len() as int),
    {
        let len = self.receive_len;
        if len == 0 {
            assert(out@ =~= self@.data + out@.skip(0));
            assert(self@.data =~= Seq::<u8>::empty());
            assert(self@.after_take() =~= self@);
            Ok((0, Ipv6Address::unspecified(), 0))
        } else {
            self.receive_len = 0;
            let mut i: usize = 0;
            while i < len
                invariant
                    len <= self.receive_buffer@.len(),
                    len <= out@.len(),
                    out@.len() == old(out)@.len(),
                    i <= len,
                    forall|j: int| 0 <= j < i ==> out@[j] == self.receive_buffer@[j],
                    forall|j: int| len <= j < out@.len() ==> out@[j] == old(out)@[j],
                decreases len - i,
            {
                out[i] = self.receive_buffer[i];
                i += 1;
            }
            proof {
                let d = old(self)@.data;
                assert(d =~= self.receive_buffer@.take(len as int));
                assert(out@ =~= d + old(out)@.skip(len as int));
                assert(self@.data =~= Seq::<u8>::empty());
                assert(self@ =~= old(self)@.after_take());
            }
            Ok((len, Ipv6Address::from_octets(self.receive_from), self.receive_port))
        }
    }
}

/// The next step in sending a UDP datagram, decided from what the previous
/// OpenThread call reported.
#[derive(Debug, PartialEq, Eq, Clone, Copy)]
pub enum UdpSendStep {
    /// Append the payload to the new message.
    Append,
    /// Hand the message to the socket.
    Send,
    /// The send failed: free the message, then fail with this error.
    Free(Error),
    /// Sending is over, with this result.
    Done(Result<(), Error>),
}

/// After a new message was asked for: go on when one was allocated, else
/// fail with error code `0`.
pub fn udp_send_after_alloc(allocated: bool) -> (r: UdpSendStep)
    ensures
        r == if allocated {
            UdpSendStep::Append
        } else {
            UdpSendStep::Done(Err(Error::InternalError(0)))
        },
{
    if allocated {
        UdpSendStep::Append
    } else {
        UdpSendStep::Done(Err(Error::InternalError(0)))
    }
}

/// After the payload was appended: send when the append succeeded, else
/// fail with its status code.
pub fn udp_send_after_append(status: u32) -> (r: UdpSendStep)
    ensures
        r == if status == 0 {
            UdpSendStep::Send
        } else {
            UdpSendStep::Done(Err(Error::InternalError(status)))
        },
{
    match check_status(status) {
        Ok(()) => UdpSendStep::Send,
        Err(e) => UdpSendStep::Done(Err(e)),
    }
}

/// After the message was handed to the socket: done when that succeeded,
/// else free the message and fail with its status code.
pub fn udp_send_after_send(status: u32) -> (r: UdpSendStep)
    ensures
        r == if status == 0 {
            UdpSendStep::Done(Ok(()))
        } else {
            UdpSendStep::Free(Error::InternalError(status))
        },
{
    if status != 0 {
        UdpSendStep::Free(Error::InternalError(status))
    } else {
        UdpSendStep::Done(Ok(()))
    }
}

} // verus!
