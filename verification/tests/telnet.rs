use microtun_telnet::telnet::{
    escape, is_remote_disconnect, read_timeout_message, ErrorKind, NetworkRead, ReadStep,
    Readiness, Received, TelnetCodec,
};

const IAC: u8 = 0xff;
const WILL: u8 = 0xfb;
const WONT: u8 = 0xfc;
const DO: u8 = 0xfd;
const DONT: u8 = 0xfe;
const SB: u8 = 0xfa;
const SE: u8 = 0xf0;

fn decode(wire: &[u8]) -> (Vec<u8>, Vec<u8>) {
    let mut codec = TelnetCodec::new();
    codec.process_wire_bytes(wire);
    (codec.take_decoded(), codec.take_negotiation_replies())
}

#[test]
fn remote_disconnect_errors_are_clean_close_conditions() {
    for kind in [
        ErrorKind::ConnectionReset,
        ErrorKind::ConnectionAborted,
        ErrorKind::BrokenPipe,
        ErrorKind::NotConnected,
        ErrorKind::UnexpectedEof,
    ] {
        assert!(is_remote_disconnect(kind));
    }
    assert!(!is_remote_disconnect(ErrorKind::Interrupted));
    assert!(!is_remote_disconnect(ErrorKind::PermissionDenied));
}

#[test]
fn binary_negotiation_is_accepted_before_data() {
    let (data, replies) = decode(&[IAC, WILL, 0, IAC, DO, 0, b'C']);
    assert_eq!(data, b"C");
    assert_eq!(replies, vec![IAC, DO, 0, IAC, WILL, 0]);
}

#[test]
fn unknown_options_are_refused_and_withdrawals_acknowledged() {
    let (data, replies) = decode(&[
        IAC, WILL, 24, IAC, DO, 31, IAC, WONT, 1, IAC, DONT, 3, IAC, DO, 1, IAC, WILL, 3,
    ]);
    assert!(data.is_empty());
    assert_eq!(
        replies,
        vec![
            IAC, DONT, 24, IAC, WONT, 31, IAC, DONT, 1, IAC, WONT, 3, IAC, WILL, 1, IAC, DO, 3
        ]
    );
}

#[test]
fn escaped_data_decodes_to_itself() {
    let payload = b"before\xffafter";
    let wire = escape(payload);
    assert_eq!(wire, b"before\xff\xffafter");
    let (data, replies) = decode(&wire);
    assert_eq!(data, payload);
    assert!(replies.is_empty());
    let all: Vec<u8> = (0..=255).collect();
    assert_eq!(decode(&escape(&all)).0, all);
}

#[test]
fn chunking_does_not_matter() {
    let wire = [b'a', IAC, IAC, IAC, WILL, 0, b'b', IAC, SB, 24, IAC, SE, b'c', IAC, 0xf1, b'd'];
    let whole = decode(&wire);
    assert_eq!(whole.0, [b'a', IAC, b'b', b'c', b'd']);
    for cut in 0..=wire.len() {
        let mut codec = TelnetCodec::new();
        codec.process_wire_bytes(&wire[..cut]);
        codec.process_wire_bytes(&wire[cut..]);
        assert_eq!(codec.take_decoded(), whole.0);
        assert_eq!(codec.take_negotiation_replies(), whole.1);
    }
}

#[test]
fn subnegotiations_are_skipped() {
    let (data, replies) = decode(&[b'x', IAC, SB, 24, 1, IAC, IAC, 2, IAC, SE, b'y']);
    assert_eq!(data, b"xy");
    assert!(replies.is_empty());
    let all: Vec<u8> = (0..=255).collect();
    let wire = [&[IAC, SB], &escape(&all)[..], &[IAC, SE, b'z']].concat();
    assert_eq!(decode(&wire), (b"z".to_vec(), vec![]));
}

#[test]
fn replies_carry_no_data() {
    let (_, replies) = decode(&[IAC, WILL, 0, IAC, DO, 99, IAC, WONT, 7]);
    let (data, _) = decode(&replies);
    assert!(data.is_empty());
}

#[test]
fn decoded_bytes_are_read_in_pieces() {
    let mut codec = TelnetCodec::new();
    codec.process_wire_bytes(b"abcde");
    let mut output = [b'-'; 3];
    assert_eq!(codec.read_decoded(&mut output), 3);
    assert_eq!(&output, b"abc");
    let mut output = [b'-'; 4];
    assert_eq!(codec.read_decoded(&mut output), 2);
    assert_eq!(&output, b"de--");
    assert_eq!(codec.read_decoded(&mut output), 0);
}

#[test]
fn blocking_read_takes_its_steps() {
    let mut codec = TelnetCodec::new();
    assert!(matches!(codec.begin_read(0), ReadStep::ReturnEmpty));
    assert!(matches!(codec.begin_read(1), ReadStep::AwaitReadable));
    assert!(matches!(codec.on_readable(Readiness::Ready), ReadStep::Receive));
    assert!(matches!(
        codec.on_readable(Readiness::Failed(ErrorKind::ConnectionReset)),
        ReadStep::ReturnEmpty
    ));
    assert!(matches!(
        codec.on_readable(Readiness::Failed(ErrorKind::Other)),
        ReadStep::ReturnError
    ));
    assert!(matches!(codec.on_readable(Readiness::TimedOut), ReadStep::ReturnTimeout));
    assert!(matches!(
        codec.on_received(Received::Failed(ErrorKind::WouldBlock)),
        ReadStep::AwaitReadable
    ));
    assert!(matches!(
        codec.on_received(Received::Failed(ErrorKind::BrokenPipe)),
        ReadStep::ReturnEmpty
    ));
    assert!(matches!(
        codec.on_received(Received::Failed(ErrorKind::PermissionDenied)),
        ReadStep::ReturnError
    ));
    assert!(matches!(codec.on_received(Received::Bytes(vec![])), ReadStep::ReturnEmpty));
    match codec.on_received(Received::Bytes(vec![IAC, DO, 0])) {
        ReadStep::SendReplies(replies) => assert_eq!(replies, vec![IAC, WILL, 0]),
        _ => panic!("a negotiation is answered first"),
    }
    assert!(matches!(codec.continue_read(), ReadStep::AwaitReadable));
    assert!(matches!(codec.on_received(Received::Bytes(b"C".to_vec())), ReadStep::Deliver));
    assert!(matches!(codec.begin_read(1), ReadStep::Deliver));
    assert_eq!(read_timeout_message(), "Telnet read timed out");
}

#[test]
fn a_whole_read_sends_the_replies_it_owes() {
    let chunks: [&[u8]; 4] = [
        &[IAC, WILL, 0, IAC],
        &[DO, 99],
        &[IAC, SB, 24, IAC, SE],
        &[IAC, WONT, 1, b'o', b'k'],
    ];
    let mut codec = TelnetCodec::new();
    let mut next = 0;
    let mut sent = Vec::new();
    let mut step = codec.begin_read(8);
    loop {
        step = match step {
            ReadStep::AwaitReadable => codec.on_readable(Readiness::Ready),
            ReadStep::Receive => {
                next += 1;
                codec.on_received(Received::Bytes(chunks[next - 1].to_vec()))
            }
            ReadStep::SendReplies(replies) => {
                sent.extend(replies);
                codec.continue_read()
            }
            ReadStep::Deliver => break,
            _ => panic!("the read goes on"),
        };
    }
    assert_eq!(next, 4);
    assert_eq!(sent, decode(&chunks.concat()).1);
    assert_eq!(sent, vec![IAC, DO, 0, IAC, WONT, 99, IAC, DONT, 1]);
    let mut output = [0; 8];
    assert_eq!(codec.read_decoded(&mut output), 2);
    assert_eq!(&output[..2], b"ok");
    assert!(codec.take_negotiation_replies().is_empty());
}

#[test]
fn interactive_read_reports_data_idling_and_the_end() {
    let mut codec = TelnetCodec::new();
    assert!(matches!(
        codec.on_interactive(Received::Bytes(vec![IAC, WILL, 1])),
        Ok(NetworkRead::Idle)
    ));
    assert_eq!(codec.take_negotiation_replies(), vec![IAC, DO, 1]);
    match codec.on_interactive(Received::Bytes(b"login: ".to_vec())) {
        Ok(NetworkRead::Data(data)) => assert_eq!(data, b"login: "),
        _ => panic!("data is handed over"),
    }
    assert!(matches!(codec.on_interactive(Received::Bytes(vec![])), Ok(NetworkRead::Closed)));
    assert!(matches!(
        codec.on_interactive(Received::Failed(ErrorKind::WouldBlock)),
        Ok(NetworkRead::Idle)
    ));
    assert!(matches!(
        codec.on_interactive(Received::Failed(ErrorKind::ConnectionAborted)),
        Ok(NetworkRead::Closed)
    ));
    assert_eq!(
        codec.on_interactive(Received::Failed(ErrorKind::Interrupted)).err(),
        Some(ErrorKind::Interrupted)
    );
    codec.process_wire_bytes(b"left over");
    match codec.take_network_read() {
        NetworkRead::Data(data) => assert_eq!(data, b"left over"),
        _ => panic!("bytes that an upload left are handed over"),
    }
    assert!(matches!(codec.take_network_read(), NetworkRead::Idle));
}
