//! Outbound pkt-line framing: the length-prefixed line that announces a
//! service, the flush packet, and the framed ref advertisement.

use vstd::prelude::*;
use crate::service::Service;
use crate::text::{ascii_bytes, ascii_bytes_of};

verus! {

/// The number of bytes of a length prefix.
pub const PREFIX_LEN: usize = 4;

/// The longest line, prefix included, that four hex digits can declare.
pub const MAX_LINE_LEN: usize = 0xffff;

/// The longest payload of one line.
pub const MAX_PAYLOAD_LEN: usize = MAX_LINE_LEN - PREFIX_LEN;

/// The lowercase ASCII hex digit for a value below sixteen.
pub open spec fn hex_digit(value: int) -> u8 {
    if value < 10 {
        (0x30 + value) as u8
    } else {
        (0x61 + value - 10) as u8
    }
}

/// The value of a lowercase ASCII hex digit.
pub open spec fn hex_value(digit: u8) -> Option<int> {
    if 0x30 <= digit <= 0x39 {
        Some(digit - 0x30)
    } else if 0x61 <= digit <= 0x66 {
        Some(digit - 0x61 + 10)
    } else {
        None
    }
}

/// The four lowercase hex digits, zero-padded, most significant first, that
/// declare a line of `len` bytes.
pub open spec fn length_prefix(len: int) -> Seq<u8> {
    seq![
        hex_digit(len / 0x1000 % 16),
        hex_digit(len / 0x100 % 16),
        hex_digit(len / 0x10 % 16),
        hex_digit(len % 16),
    ]
}

/// The length that a prefix declares, if it is four lowercase hex digits.
pub open spec fn declared_len(prefix: Seq<u8>) -> Option<int> {
    if prefix.len() == PREFIX_LEN {
        match (
            hex_value(prefix[0]),
            hex_value(prefix[1]),
            hex_value(prefix[2]),
            hex_value(prefix[3]),
        ) {
            (Some(d3), Some(d2), Some(d1), Some(d0)) => Some(
                0x1000 * d3 + 0x100 * d2 + 0x10 * d1 + d0,
            ),
            _ => None,
        }
    } else {
        None
    }
}

/// One line on the wire: the prefix that declares the whole line's length,
/// itself included, then the payload.
pub open spec fn wire_form(payload: Seq<u8>) -> Seq<u8> {
    length_prefix(PREFIX_LEN + payload.len()) + payload
}

/// The flush packet `0000`, which declares no line at all.
pub open spec fn flush_packet() -> Seq<u8> {
    ascii_bytes("0000"@)
}

/// The line that announces a service: `# service=git-<name>` and a newline.
pub open spec fn announcement(service: Service) -> Seq<u8> {
    ascii_bytes("# service=git-"@ + service.spec_name() + "\n"@)
}

/// What precedes the backend's own output in an advertisement: the
/// announcement as one line, then a flush packet.
pub open spec fn preamble(service: Service) -> Seq<u8> {
    wire_form(announcement(service)) + flush_packet()
}

/// The body of an advertisement response: the preamble, then the backend's
/// output, byte for byte.
pub open spec fn framed(service: Service, advertisement_body: Seq<u8>) -> Seq<u8> {
    preamble(service) + advertisement_body
}

/// The payload of one pkt-line. Its length, with the prefix, always fits the
/// four hex digits that declare it.
pub struct PktLineEnvelope {
    payload: Vec<u8>,
}

impl View for PktLineEnvelope {
    type V = Seq<u8>;

    closed spec fn view(&self) -> Seq<u8> {
        self.payload@
    }
}

fn hex_digit_of(value: usize) -> (digit: u8)
    requires
        value < 16,
    ensures
        digit == hex_digit(value as int),
{
    if value < 10 {
        0x30u8 + (value as u8)
    } else {
        0x61u8 + (value as u8 - 10u8)
    }
}

/// Appends the four hex digits that declare a line of `len` bytes.
fn push_length_prefix(out: &mut Vec<u8>, len: usize)
    requires
        len <= MAX_LINE_LEN,
    ensures
        final(out)@ == old(out)@ + length_prefix(len as int),
{
    out.push(hex_digit_of(len / 0x1000 % 16));
    out.push(hex_digit_of(len / 0x100 % 16));
    out.push(hex_digit_of(len / 0x10 % 16));
    out.push(hex_digit_of(len % 16));
    assert(out@ =~= old(out)@ + length_prefix(len as int));
}

impl PktLineEnvelope {
    #[verifier::type_invariant]
    spec fn fits(&self) -> bool {
        self.payload@.len() <= MAX_PAYLOAD_LEN
    }

    /// Wraps a payload, unless it is too long for one line.
    pub fn new(payload: Vec<u8>) -> (envelope: Option<PktLineEnvelope>)
        ensures
            envelope is Some <==> payload@.len() <= MAX_PAYLOAD_LEN,
            envelope matches Some(e) ==> e@ == payload@,
    {
        if payload.len() <= MAX_PAYLOAD_LEN {
            Some(PktLineEnvelope { payload })
        } else {
            None
        }
    }

    /// The line that announces `service`.
    pub fn announcing(service: Service) -> (envelope: PktLineEnvelope)
        ensures
            envelope@ == announcement(service),
    {
        proof {
            reveal_strlit("# service=git-");
            reveal_strlit("upload-pack");
            reveal_strlit("receive-pack");
            reveal_strlit("\n");
        }
        let mut payload: Vec<u8> = Vec::new();
        payload.extend_from_slice(ascii_bytes_of("# service=git-"));
        payload.extend_from_slice(ascii_bytes_of(service.name()));
        payload.extend_from_slice(ascii_bytes_of("\n"));
        assert(payload@ =~= announcement(service));
        PktLineEnvelope { payload }
    }

    /// The payload.
    pub fn payload(&self) -> (payload: &[u8])
        ensures
            payload@ == self@,
            payload@.len() <= MAX_PAYLOAD_LEN,
    {
        proof {
            use_type_invariant(self);
        }
        self.payload.as_slice()
    }

    /// The length that the prefix declares: the payload's and its own.
    pub fn advertised_len(&self) -> (len: usize)
        ensures
            len == PREFIX_LEN + self@.len(),
            len <= MAX_LINE_LEN,
    {
        proof {
            use_type_invariant(self);
        }
        PREFIX_LEN + self.payload.len()
    }

    /// The line as it goes on the wire.
    pub fn encode(&self) -> (line: Vec<u8>)
        ensures
            line@ == wire_form(self@),
    {
        let mut line: Vec<u8> = Vec::new();
        push_length_prefix(&mut line, self.advertised_len());
        line.extend_from_slice(self.payload.as_slice());
        line
    }
}

/// Frames the backend's ref advertisement for `service`: announcement line,
/// flush packet, then `advertisement_body` unchanged.
pub fn frame(service: Service, advertisement_body: &[u8]) -> (response: Vec<u8>)
    ensures
        response@ == framed(service, advertisement_body@),
{
    proof {
        reveal_strlit("0000");
    }
    let mut response = PktLineEnvelope::announcing(service).encode();
    response.extend_from_slice(ascii_bytes_of("0000"));
    response.extend_from_slice(advertisement_body);
    assert(response@ =~= framed(service, advertisement_body@));
    response
}

/// A hex digit has the value it was made from.
pub proof fn lemma_digit_has_its_value(value: int)
    requires
        0 <= value < 16,
    ensures
        hex_value(hex_digit(value)) == Some(value),
{
}

/// Four hex digits declare the length they were made from.
pub proof fn lemma_prefix_declares_length(len: int)
    requires
        0 <= len <= MAX_LINE_LEN,
    ensures
        length_prefix(len).len() == PREFIX_LEN,
        declared_len(length_prefix(len)) == Some(len),
{
    let n = len as u32;
    assert(n == 0x1000 * (n / 0x1000 % 16) + 0x100 * (n / 0x100 % 16) + 0x10 * (n / 0x10 % 16) + n
        % 16) by (bit_vector)
        requires
            n <= 0xffff,
    ;
    lemma_digit_has_its_value(len / 0x1000 % 16);
    lemma_digit_has_its_value(len / 0x100 % 16);
    lemma_digit_has_its_value(len / 0x10 % 16);
    lemma_digit_has_its_value(len % 16);
}

/// A line on the wire declares its own length, prefix included, and holds
/// its payload unchanged after the prefix.
pub proof fn lemma_line_declares_itself(payload: Seq<u8>)
    requires
        payload.len() <= MAX_PAYLOAD_LEN,
    ensures
        wire_form(payload).len() == PREFIX_LEN + payload.len(),
        declared_len(wire_form(payload).take(PREFIX_LEN as int)) == Some(
            wire_form(payload).len() as int,
        ),
        wire_form(payload).skip(PREFIX_LEN as int) == payload,
{
    let len = PREFIX_LEN + payload.len();
    lemma_prefix_declares_length(len);
    assert(wire_form(payload).take(PREFIX_LEN as int) =~= length_prefix(len));
    assert(wire_form(payload).skip(PREFIX_LEN as int) =~= payload);
}

/// The preamble of each service, spelled out.
pub proof fn lemma_preamble_is_fixed(service: Service)
    ensures
        service.spec_is_upload() ==> preamble(service) == ascii_bytes(
            "001e# service=git-upload-pack\n0000"@,
        ),
        !service.spec_is_upload() ==> preamble(service) == ascii_bytes(
            "001f# service=git-receive-pack\n0000"@,
        ),
{
    reveal_strlit("# service=git-");
    reveal_strlit("upload-pack");
    reveal_strlit("receive-pack");
    reveal_strlit("\n");
    reveal_strlit("0000");
    reveal_strlit("001e# service=git-upload-pack\n0000");
    reveal_strlit("001f# service=git-receive-pack\n0000");
    if service.spec_is_upload() {
        assert(preamble(service) =~= ascii_bytes("001e# service=git-upload-pack\n0000"@));
    } else {
        assert(preamble(service) =~= ascii_bytes("001f# service=git-receive-pack\n0000"@));
    }
}

/// The length prefix of a framed advertisement is `001e` for `upload-pack`
/// and `001f` for `receive-pack`, whatever the backend wrote: it declares the
/// announcement line alone, never the body behind it.
pub proof fn lemma_prefix_ignores_body(service: Service, advertisement_body: Seq<u8>)
    ensures
        framed(service, advertisement_body).take(PREFIX_LEN as int) == ascii_bytes(
            if service.spec_is_upload() {
                "001e"@
            } else {
                "001f"@
            },
        ),
        declared_len(framed(service, advertisement_body).take(PREFIX_LEN as int)) == Some(
            PREFIX_LEN + announcement(service).len(),
        ),
{
    reveal_strlit("# service=git-");
    reveal_strlit("upload-pack");
    reveal_strlit("receive-pack");
    reveal_strlit("\n");
    reveal_strlit("001e");
    reveal_strlit("001f");
    let prefix = framed(service, advertisement_body).take(PREFIX_LEN as int);
    assert(prefix =~= length_prefix(PREFIX_LEN + announcement(service).len()));
    if service.spec_is_upload() {
        assert(prefix =~= ascii_bytes("001e"@));
    } else {
        assert(prefix =~= ascii_bytes("001f"@));
    }
}

/// A framed advertisement is the preamble and then the backend's output:
/// with the preamble taken off, what is left is that output, byte for byte.
pub proof fn lemma_frame_round_trip(service: Service, advertisement_body: Seq<u8>)
    ensures
        framed(service, advertisement_body).len() == preamble(service).len()
            + advertisement_body.len(),
        framed(service, advertisement_body).take(preamble(service).len() as int) == preamble(
            service,
        ),
        framed(service, advertisement_body).skip(preamble(service).len() as int)
            == advertisement_body,
{
    let whole = framed(service, advertisement_body);
    let cut = preamble(service).len() as int;
    assert(whole.take(cut) =~= preamble(service));
    assert(whole.skip(cut) =~= advertisement_body);
}

} // verus!
