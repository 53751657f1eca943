use gittig::pktline::{frame, PktLineEnvelope, MAX_LINE_LEN, MAX_PAYLOAD_LEN, PREFIX_LEN};
use gittig::service::Service;

#[test]
fn upload_pack_prefix_is_001e() {
    let framed = frame(Service::AdvertiseUploadPack, b"");
    assert_eq!(&framed[..4], b"001e");
    assert_eq!(4 + "# service=git-upload-pack\n".len(), 0x1e);
}

#[test]
fn receive_pack_prefix_is_001f() {
    let framed = frame(Service::AdvertiseReceivePack, b"");
    assert_eq!(&framed[..4], b"001f");
    assert_eq!(4 + "# service=git-receive-pack\n".len(), 0x1f);
}

#[test]
fn frame_of_an_empty_advertisement_is_the_preamble() {
    assert_eq!(
        frame(Service::AdvertiseUploadPack, b""),
        b"001e# service=git-upload-pack\n0000".to_vec()
    );
    assert_eq!(
        frame(Service::AdvertiseReceivePack, b""),
        b"001f# service=git-receive-pack\n0000".to_vec()
    );
}

#[test]
fn frame_depends_on_the_kind_of_service_only() {
    assert_eq!(
        frame(Service::ExecUploadPack, b"x"),
        frame(Service::AdvertiseUploadPack, b"x")
    );
    assert_eq!(
        frame(Service::ExecReceivePack, b"x"),
        frame(Service::AdvertiseReceivePack, b"x")
    );
}

#[test]
fn frame_passes_the_body_through() {
    let body: Vec<u8> = b"00a4deadbeef HEAD\0multi_ack\n0000".to_vec();
    let framed = frame(Service::AdvertiseUploadPack, &body);
    let preamble = b"001e# service=git-upload-pack\n0000";
    assert_eq!(&framed[..preamble.len()], preamble);
    assert_eq!(&framed[preamble.len()..], &body[..]);
    assert_eq!(framed.len(), preamble.len() + body.len());
}

#[test]
fn frame_keeps_bytes_that_are_no_text() {
    let body: Vec<u8> = (0..=255u8).collect();
    let framed = frame(Service::AdvertiseReceivePack, &body);
    assert_eq!(&framed[35..], &body[..]);
}

#[test]
fn prefix_does_not_count_the_body() {
    let short = frame(Service::AdvertiseUploadPack, b"");
    let long = frame(Service::AdvertiseUploadPack, &vec![7u8; 100_000]);
    assert_eq!(&short[..4], &long[..4]);
    assert_eq!(long.len(), 34 + 100_000);
}

#[test]
fn announcement_lines() {
    let upload = PktLineEnvelope::announcing(Service::AdvertiseUploadPack);
    assert_eq!(upload.payload(), b"# service=git-upload-pack\n");
    assert_eq!(upload.advertised_len(), 30);
    assert_eq!(upload.encode(), b"001e# service=git-upload-pack\n".to_vec());
    let receive = PktLineEnvelope::announcing(Service::AdvertiseReceivePack);
    assert_eq!(receive.payload(), b"# service=git-receive-pack\n");
    assert_eq!(receive.advertised_len(), 31);
    assert_eq!(receive.encode(), b"001f# service=git-receive-pack\n".to_vec());
}

#[test]
fn empty_payload_declares_four() {
    let line = PktLineEnvelope::new(Vec::new()).unwrap();
    assert_eq!(line.advertised_len(), 4);
    assert_eq!(line.encode(), b"0004".to_vec());
}

#[test]
fn prefix_is_lowercase_hex_padded_with_zeros() {
    let line = PktLineEnvelope::new(vec![b'a'; 6]).unwrap();
    assert_eq!(&line.encode()[..4], b"000a");
    let line = PktLineEnvelope::new(vec![b'a'; 0xab - 4]).unwrap();
    assert_eq!(&line.encode()[..4], b"00ab");
    let line = PktLineEnvelope::new(vec![b'a'; 0xabc - 4]).unwrap();
    assert_eq!(&line.encode()[..4], b"0abc");
    let line = PktLineEnvelope::new(vec![b'a'; 0x9f0d - 4]).unwrap();
    assert_eq!(&line.encode()[..4], b"9f0d");
}

#[test]
fn prefix_counts_itself_and_the_payload() {
    for len in [0usize, 1, 11, 12, 15, 16, 255, 256, 4095, 4096, 65530, 65531] {
        let line = PktLineEnvelope::new(vec![0x41u8; len]).unwrap();
        let encoded = line.encode();
        assert_eq!(encoded.len(), 4 + len);
        let declared = usize::from_str_radix(std::str::from_utf8(&encoded[..4]).unwrap(), 16);
        assert_eq!(declared, Ok(encoded.len()));
        assert_eq!(format!("{:04x}", 4 + len).as_bytes(), &encoded[..4]);
        assert_eq!(&encoded[4..], line.payload());
    }
}

#[test]
fn longest_payload_declares_ffff() {
    let line = PktLineEnvelope::new(vec![0u8; MAX_PAYLOAD_LEN]).unwrap();
    assert_eq!(line.advertised_len(), MAX_LINE_LEN);
    assert_eq!(&line.encode()[..4], b"ffff");
}

#[test]
fn payload_too_long_for_one_line_is_refused() {
    assert!(PktLineEnvelope::new(vec![0u8; MAX_PAYLOAD_LEN + 1]).is_none());
    assert!(PktLineEnvelope::new(vec![0u8; 100_000]).is_none());
}

#[test]
fn limits_of_a_line() {
    assert_eq!(PREFIX_LEN, 4);
    assert_eq!(MAX_LINE_LEN, 65535);
    assert_eq!(MAX_PAYLOAD_LEN + PREFIX_LEN, MAX_LINE_LEN);
}
