use esp_openthread::{
    udp_send_after_alloc, udp_send_after_append, udp_send_after_send, Error, UdpReceiveBuffer,
    UdpSendStep,
};

#[test]
fn nothing_received_yet() {
    let mut b = UdpReceiveBuffer::new(512);
    let mut out = [0xaau8; 4];
    let (len, from, port) = b.receive(&mut out).unwrap();
    assert_eq!(len, 0);
    assert_eq!(from.octets, [0u8; 16]);
    assert_eq!(port, 0);
    assert_eq!(out, [0xaa; 4]);
}

#[test]
fn receive_gives_back_message_once() {
    let mut b = UdpReceiveBuffer::new(512);
    let mut from = [0u8; 16];
    from[0] = 0xfe;
    from[1] = 0x80;
    from[15] = 1;
    b.on_message(b"Hello", from, 1212);
    let mut out = [0u8; 8];
    let (len, addr, port) = b.receive(&mut out).unwrap();
    assert_eq!(len, 5);
    assert_eq!(&out[..5], b"Hello");
    assert_eq!(&out[5..], &[0, 0, 0]);
    assert_eq!(addr.octets, from);
    assert_eq!(port, 1212);
    let (len, addr, port) = b.receive(&mut out).unwrap();
    assert_eq!(len, 0);
    assert_eq!(addr.octets, [0u8; 16]);
    assert_eq!(port, 0);
}

#[test]
fn message_is_cut_to_capacity() {
    let mut b = UdpReceiveBuffer::new(4);
    b.on_message(b"abcdefgh", [1; 16], 7);
    let mut out = [0u8; 4];
    let (len, _, _) = b.receive(&mut out).unwrap();
    assert_eq!(len, 4);
    assert_eq!(&out, b"abcd");
}

#[test]
fn later_message_replaces_earlier() {
    let mut b = UdpReceiveBuffer::new(16);
    b.on_message(b"first message", [1; 16], 1);
    b.on_message(b"xy", [2; 16], 2);
    let mut out = [0u8; 16];
    let (len, addr, port) = b.receive(&mut out).unwrap();
    assert_eq!(len, 2);
    assert_eq!(&out[..2], b"xy");
    assert_eq!(addr.octets, [2; 16]);
    assert_eq!(port, 2);
}

#[test]
fn send_steps() {
    assert_eq!(udp_send_after_alloc(true), UdpSendStep::Append);
    assert_eq!(udp_send_after_alloc(false), UdpSendStep::Done(Err(Error::InternalError(0))));
    assert_eq!(udp_send_after_append(0), UdpSendStep::Send);
    assert_eq!(udp_send_after_append(3), UdpSendStep::Done(Err(Error::InternalError(3))));
    assert_eq!(udp_send_after_send(0), UdpSendStep::Done(Ok(())));
    assert_eq!(udp_send_after_send(13), UdpSendStep::Free(Error::InternalError(13)));
}
