//! The messages of a socket that is reached through channels.

use crate::socket::PtpTargetAddress;
use timestamped_socket::socket::Timestamp;
use tokio::sync::mpsc::{Receiver, Sender};
use vstd::prelude::*;
use vstd::slice::slice_to_vec;

verus! {

/// A sending end of a channel of tokio. Nothing is stated of it.
#[verifier::external_type_specification]
#[verifier::external_body]
#[verifier::reject_recursive_types(T)]
pub struct ExSender<T>(Sender<T>);

/// A receiving end of a channel of tokio. Nothing is stated of it.
#[verifier::external_type_specification]
#[verifier::external_body]
#[verifier::reject_recursive_types(T)]
pub struct ExReceiver<T>(Receiver<T>);

/// A timestamp of a packet, as timestamped_socket gives it. Nothing is stated
/// of it.
#[verifier::external_type_specification]
#[verifier::external_body]
pub struct ExTimestamp(Timestamp);

/// A socket that is reached through channels: what is sent goes out on
/// `out_ch`, what arrives comes in on `in_ch` with the time of its arrival, and
/// `timestamp_ch` gives the time of each sending, in the order of sending.
#[verifier::reject_recursive_types(A)]
pub struct Socket<A> {
    pub out_ch: Sender<(Vec<u8>, A)>,
    pub in_ch: Receiver<(Vec<u8>, Timestamp)>,
    pub timestamp_ch: Receiver<Timestamp>,
}

/// The length of the buffer for messages on the general socket. The one for
/// event messages is as long as the longest message of statime.
pub const GENERAL_BUFFER_LEN: usize = 2048;

/// What is known of a message that was received.
#[derive(Debug, PartialEq, Eq)]
pub struct RecvResult<A, D> {
    /// How much of the buffer the message takes.
    pub bytes_read: usize,
    /// Where replies would go.
    pub remote_addr: A,
    /// When the message arrived, where that is known.
    pub timestamp: Option<D>,
}

/// The datagram that is handed to `out_ch` to send `buf` to `addr`.
pub fn datagram<A>(buf: &[u8], addr: A) -> (datagram: (Vec<u8>, A))
    ensures
        datagram.0@ == buf@,
        datagram.1 == addr,
{
    (slice_to_vec(buf), addr)
}

/// Puts a message that came in on `in_ch` into the buffer of the caller. The
/// message must fill the buffer.
pub fn deliver<A: PtpTargetAddress, D>(buf: &mut [u8], msg: &[u8], timestamp: D) -> (packet:
    RecvResult<A, D>)
    requires
        old(buf)@.len() == msg@.len(),
    ensures
        final(buf)@ == msg@,
        packet == (RecvResult {
            bytes_read: msg.len(),
            remote_addr: A::PRIMARY_GENERAL,
            timestamp: Some(timestamp),
        }),
{
    let mut i: usize = 0;
    while i < msg.len()
        invariant
            i <= msg@.len(),
            buf@.len() == msg@.len(),
            forall|k: int| 0 <= k < i ==> buf@[k] == msg@[k],
        decreases msg@.len() - i,
    {
        buf[i] = msg[i];
        i += 1;
    }
    RecvResult { bytes_read: msg.len(), remote_addr: A::PRIMARY_GENERAL, timestamp: Some(timestamp) }
}

/// What is sent is what arrives: a datagram holds the bytes and the address that
/// it was made for, and once its bytes are delivered, what the packet counts as
/// read is the whole message, with the time of its arrival.
pub proof fn law_messages_arrive_as_they_were_sent<A: PtpTargetAddress, B, D>(
    sent: &[u8],
    addr: B,
    datagram: (Vec<u8>, B),
    buf: &mut [u8],
    msg: &[u8],
    timestamp: D,
    packet: RecvResult<A, D>,
)
    requires
        call_ensures(self::datagram::<B>, (sent, addr), datagram),
        call_ensures(deliver::<A, D>, (buf, msg, timestamp), packet),
    ensures
        datagram.1 == addr,
        datagram.0@.len() == sent@.len(),
        forall|i: int| 0 <= i < sent@.len() ==> (#[trigger] datagram.0@[i]) == sent@[i],
        packet.bytes_read == msg@.len(),
        final(buf)@.take(packet.bytes_read as int) == msg@,
        packet.timestamp == Some(timestamp),
        packet.remote_addr == A::PRIMARY_GENERAL,
        msg@ == datagram.0@ ==> final(buf)@ == sent@,
{
    assert(final(buf)@.take(packet.bytes_read as int) =~= msg@);
}

/// Every message that fills its buffer can be delivered.
pub proof fn law_messages_can_be_delivered<A: PtpTargetAddress, D>(
    buf: &mut [u8],
    msg: &[u8],
    timestamp: D,
)
    requires
        old(buf)@.len() == msg@.len(),
    ensures
        call_requires(deliver::<A, D>, (buf, msg, timestamp)),
        GENERAL_BUFFER_LEN == 2048,
{
}

} // verus!
