use ptp_driver::channel::{datagram, deliver, RecvResult, Socket};
use ptp_driver::socket::SocketAddrV4;
use timestamped_socket::socket::Timestamp;

#[test]
fn datagram_holds_the_bytes_and_the_address() {
    let sent = datagram(&[3, 1, 4], "there");
    assert_eq!(sent, (vec![3, 1, 4], "there"));
    assert_eq!(datagram(&[], 0u8), (vec![], 0u8));
}

#[test]
fn delivered_message_fills_the_buffer() {
    let mut buffer = [9u8; 4];
    let packet: RecvResult<SocketAddrV4, u64> = deliver(&mut buffer, &[1, 2, 3, 4], 77);
    assert_eq!(buffer, [1, 2, 3, 4]);
    assert_eq!(
        packet,
        RecvResult { bytes_read: 4, remote_addr: ([224, 0, 1, 129], 320), timestamp: Some(77) }
    );
}

#[test]
fn empty_message_is_delivered() {
    let mut buffer = [0u8; 0];
    let packet: RecvResult<SocketAddrV4, u8> = deliver(&mut buffer, &[], 1);
    assert_eq!(packet.bytes_read, 0);
    assert_eq!(packet.timestamp, Some(1));
}

#[test]
fn socket_is_made_of_channels() {
    let (out_ch, mut outside) = tokio::sync::mpsc::channel(1);
    let (inside, in_ch) = tokio::sync::mpsc::channel(1);
    let (stamps, timestamp_ch) = tokio::sync::mpsc::channel(1);
    let mut socket: Socket<SocketAddrV4> = Socket { out_ch, in_ch, timestamp_ch };

    let target = ([224, 0, 1, 129], 319);
    socket.out_ch.try_send(datagram(&[5, 6], target)).unwrap();
    assert_eq!(outside.try_recv().unwrap(), (vec![5, 6], target));

    let stamp = Timestamp { seconds: 5, nanos: 6 };
    stamps.try_send(stamp).unwrap();
    assert_eq!(socket.timestamp_ch.try_recv().unwrap(), stamp);

    inside.try_send((vec![8, 9], stamp)).unwrap();
    let (msg, stamp) = socket.in_ch.try_recv().unwrap();
    let mut buffer = [0u8; 2];
    let packet: RecvResult<SocketAddrV4, Timestamp> = deliver(&mut buffer, &msg, stamp);
    assert_eq!(buffer, [8, 9]);
    assert_eq!(packet.timestamp, Some(stamp));
}
