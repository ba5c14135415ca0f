use otp_bridge::framing::{frame, payload_length, read_input, write_output, PREFIX_LEN};
use otp_bridge::message::Error;

fn framed_by_hand(payload: &[u8]) -> Vec<u8> {
    let mut bytes = (payload.len() as u32).to_ne_bytes().to_vec();
    bytes.extend_from_slice(payload);
    bytes
}

#[test]
fn read_input_succeeds_for_correct_input_length() {
    let input_bytes: &[u8] = b"\x1B\x00\x00\x00{\"account\":\"rust-lang.org\"}";
    let output_bytes: &[u8] = b"{\"account\":\"rust-lang.org\"}";
    let read_bytes = read_input(input_bytes).unwrap();
    assert_eq!(output_bytes, read_bytes, "assert read bytes equal expected bytes");
}

#[test]
fn read_input_succeeds_for_additional_bytes_after_input() {
    let input_bytes: &[u8] = b"\x1B\x00\x00\x00{\"account\":\"rust-lang.org\"}herearesomemorebytes";
    let output_bytes: &[u8] = b"{\"account\":\"rust-lang.org\"}";
    let read_bytes = read_input(input_bytes).unwrap();
    assert_eq!(output_bytes, read_bytes, "assert read bytes equal expected bytes");
}

#[test]
fn read_input_fails_for_too_short_input() {
    let input_bytes: &[u8] = b"\x1B\x00\x00\x00{\"account\":\"rust.org\"}";
    assert!(matches!(read_input(input_bytes), Err(Error::Read)), "assert reading input fails");
}

#[test]
fn read_input_fails_on_an_empty_stream() {
    assert_eq!(read_input(&[]), Err(Error::Read));
}

#[test]
fn read_input_fails_on_a_short_prefix() {
    assert_eq!(read_input(&[0, 0, 0]), Err(Error::Read));
    assert_eq!(read_input(&[1]), Err(Error::Read));
}

#[test]
fn read_input_fails_when_ten_of_twenty_seven_bytes_follow() {
    let mut input = 27u32.to_ne_bytes().to_vec();
    input.extend_from_slice(b"0123456789");
    assert_eq!(read_input(&input), Err(Error::Read));
}

#[test]
fn read_input_fails_one_byte_short_and_succeeds_with_it() {
    let whole = framed_by_hand(b"abcdef");
    assert_eq!(read_input(&whole[..whole.len() - 1]), Err(Error::Read));
    assert_eq!(read_input(&whole), Ok(b"abcdef".to_vec()));
}

#[test]
fn read_input_reads_an_empty_payload() {
    assert_eq!(read_input(&[0, 0, 0, 0]), Ok(Vec::new()));
    assert_eq!(read_input(&[0, 0, 0, 0, 9, 9]), Ok(Vec::new()));
}

#[test]
fn read_input_takes_the_length_in_native_order() {
    let payload = vec![7u8; 258];
    let mut input = 258u32.to_ne_bytes().to_vec();
    input.extend_from_slice(&payload);
    input.extend_from_slice(b"rest");
    assert_eq!(read_input(&input), Ok(payload));
}

#[test]
fn payload_length_needs_four_bytes() {
    assert_eq!(payload_length(&[]), Err(Error::Read));
    assert_eq!(payload_length(&[1, 2, 3]), Err(Error::Read));
    assert_eq!(PREFIX_LEN, 4);
}

#[test]
fn payload_length_reads_the_prefix_in_native_order() {
    assert_eq!(payload_length(&27u32.to_ne_bytes()), Ok(27));
    assert_eq!(payload_length(&0u32.to_ne_bytes()), Ok(0));
    assert_eq!(payload_length(&0x0102_0304u32.to_ne_bytes()), Ok(0x0102_0304));
    assert_eq!(payload_length(&u32::MAX.to_ne_bytes()), Ok(u32::MAX as usize));
}

#[test]
fn payload_length_looks_at_the_first_four_bytes_only() {
    let mut stream = 5u32.to_ne_bytes().to_vec();
    stream.extend_from_slice(&[0xff, 0xff, 0xff]);
    assert_eq!(payload_length(&stream), Ok(5));
}

#[test]
fn frame_puts_the_length_before_the_payload() {
    let bytes = frame(b"abc").unwrap();
    assert_eq!(bytes.len(), 7);
    assert_eq!(&bytes[..4], &3u32.to_ne_bytes());
    assert!(bytes[..4] == 3u32.to_le_bytes() || bytes[..4] == 3u32.to_be_bytes());
    assert_eq!(&bytes[4..], b"abc");
}

#[test]
fn frame_of_an_empty_payload_is_the_prefix_alone() {
    assert_eq!(frame(&[]), Ok(vec![0, 0, 0, 0]));
}

#[test]
fn frame_uses_every_byte_of_the_prefix() {
    let payload = vec![1u8; 0x0001_0203];
    let bytes = frame(&payload).unwrap();
    assert_eq!(&bytes[..4], &0x0001_0203u32.to_ne_bytes());
    assert_eq!(bytes.len(), 4 + 0x0001_0203);
    assert_eq!(&bytes[4..], &payload[..]);
}

#[test]
fn frame_then_read_input_gives_the_payload_back() {
    let payloads: Vec<Vec<u8>> = vec![
        Vec::new(),
        b"x".to_vec(),
        b"{\"type\":\"AccountList\"}".to_vec(),
        vec![0xff; 255],
        vec![0x00; 256],
        (0..70_000u32).map(|i| (i % 251) as u8).collect(),
    ];
    for payload in payloads {
        let framed = frame(&payload).unwrap();
        assert_eq!(framed, framed_by_hand(&payload));
        assert_eq!(read_input(&framed), Ok(payload.clone()));
        assert_eq!(payload_length(&framed), Ok(payload.len()));
        let mut followed = framed.clone();
        followed.extend_from_slice(b"what follows is not looked at");
        assert_eq!(read_input(&followed), Ok(payload));
    }
}

#[test]
fn write_output_appends_to_the_buffer() {
    let mut buffer: Vec<u8> = Vec::new();
    assert_eq!(write_output(&mut buffer, b"abc"), Ok(()));
    assert_eq!(buffer, b"abc");
    assert_eq!(write_output(&mut buffer, b""), Ok(()));
    assert_eq!(buffer, b"abc");
    assert_eq!(write_output(&mut buffer, b"de"), Ok(()));
    assert_eq!(buffer, b"abcde");
}
