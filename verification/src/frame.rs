//! The frame codec: masking, decoding of client frames, encoding of
//! server frames.

use crate::big_endian::{
    be_u16, be_u64, lemma_be_u16_round_trip, lemma_be_u64_round_trip, push_be_u16, push_be_u64,
    read_be_u16, read_be_u64, u16_be_bytes, u64_be_bytes,
};
use crate::error::ConnectionError;
use vstd::prelude::*;
use vstd::slice::slice_subrange;

verus! {

/// The purpose of a frame, carried in the low four bits of its first byte.
#[derive(Clone, Copy, Debug, PartialEq, Eq, Structural)]
pub enum Opcode {
    Continuation,
    Text,
    Binary,
    Close,
    Ping,
    Pong,
}

impl Opcode {
    /// The four-bit number that stands for this opcode on the wire.
    pub open spec fn code(self) -> u8 {
        match self {
            Opcode::Continuation => 0,
            Opcode::Text => 1,
            Opcode::Binary => 2,
            Opcode::Close => 8,
            Opcode::Ping => 9,
            Opcode::Pong => 10,
        }
    }

    /// The opcode that a four-bit number stands for, if it stands for one.
    pub open spec fn from_code(code: u8) -> Option<Opcode> {
        if code == 0 {
            Some(Opcode::Continuation)
        } else if code == 1 {
            Some(Opcode::Text)
        } else if code == 2 {
            Some(Opcode::Binary)
        } else if code == 8 {
            Some(Opcode::Close)
        } else if code == 9 {
            Some(Opcode::Ping)
        } else if code == 10 {
            Some(Opcode::Pong)
        } else {
            None
        }
    }

    /// The number of this opcode.
    pub fn to_u8(self) -> (code: u8)
        ensures
            code == self.code(),
            code < 16,
    {
        match self {
            Opcode::Continuation => 0,
            Opcode::Text => 1,
            Opcode::Binary => 2,
            Opcode::Close => 8,
            Opcode::Ping => 9,
            Opcode::Pong => 10,
        }
    }

    /// The opcode of a number; `None` for a number that stands for none.
    pub fn from_u8(code: u8) -> (opcode: Option<Opcode>)
        ensures
            opcode == Opcode::from_code(code),
    {
        match code {
            0 => Some(Opcode::Continuation),
            1 => Some(Opcode::Text),
            2 => Some(Opcode::Binary),
            8 => Some(Opcode::Close),
            9 => Some(Opcode::Ping),
            10 => Some(Opcode::Pong),
            _ => None,
        }
    }
}

/// What masking makes of `data` under `key`: byte `i` is combined by
/// exclusive or with byte `i mod 4` of the key. Unmasking is the same
/// operation.
pub open spec fn masked(data: Seq<u8>, key: Seq<u8>) -> Seq<u8> {
    Seq::new(data.len(), |i: int| data[i] ^ key[i % 4])
}

/// Masks, or unmasks, `data` with a four-byte key.
pub fn apply_mask(data: &[u8], key: &[u8; 4]) -> (out: Vec<u8>)
    ensures
        out@ == masked(data@, key@),
{
    let mut out: Vec<u8> = Vec::new();
    let mut i: usize = 0;
    while i < data.len()
        invariant
            i <= data@.len(),
            out@.len() == i,
            forall|j: int| 0 <= j < i ==> out@[j] == data@[j] ^ key@[j % 4],
        decreases data@.len() - i,
    {
        out.push(data[i] ^ key[i % 4]);
        i += 1;
    }
    assert(out@ =~= masked(data@, key@));
    out
}

/// Masking twice with one key gives back the data, for every key and
/// every length.
pub proof fn lemma_mask_is_self_inverse(data: Seq<u8>, key: Seq<u8>)
    ensures
        masked(masked(data, key), key) == data,
{
    assert forall|i: int| 0 <= i < data.len() implies masked(masked(data, key), key)[i]
        == data[i] by {
        let d = data[i];
        let k = key[i % 4];
        assert((d ^ k) ^ k == d) by (bit_vector);
    }
    assert(masked(masked(data, key), key) =~= data);
}

/// One data unit of the protocol.
///
/// A frame from a client is always masked. `mask_key` is there exactly when
/// `masked` is set, and `payload`, of `payload_length` bytes, holds the
/// payload as the sender meant it, with the mask taken off.
#[derive(Clone, Debug, PartialEq, Eq)]
pub struct Frame {
    pub opcode: Opcode,
    pub fin: bool,
    pub masked: bool,
    pub mask_key: Option<[u8; 4]>,
    pub payload_length: u64,
    pub payload: Vec<u8>,
}

/// A frame as contracts speak of it.
pub struct FrameView {
    pub opcode: Opcode,
    pub fin: bool,
    pub masked: bool,
    pub mask_key: Option<Seq<u8>>,
    pub payload_length: nat,
    pub payload: Seq<u8>,
}

impl FrameView {
    /// The mask key is there exactly when the frame is masked, it has four
    /// bytes, and the payload is as long as the frame says.
    pub open spec fn well_formed(self) -> bool {
        &&& self.masked <==> self.mask_key is Some
        &&& self.mask_key matches Some(key) ==> key.len() == 4
        &&& self.payload_length == self.payload.len()
    }
}

impl View for Frame {
    type V = FrameView;

    open spec fn view(&self) -> FrameView {
        FrameView {
            opcode: self.opcode,
            fin: self.fin,
            masked: self.masked,
            mask_key: match self.mask_key {
                Some(key) => Some(key@),
                None => None,
            },
            payload_length: self.payload_length as nat,
            payload: self.payload@,
        }
    }
}

/// What decoding makes of a buffer.
#[derive(Clone, Debug, PartialEq, Eq)]
pub enum Decoded {
    /// The buffer starts with this frame.
    Frame(Frame),
    /// The buffer ends before the frame that it starts does.
    NeedMoreBytes,
    /// The buffer starts with a frame that a client may not send.
    Error(ConnectionError),
}

/// A decoding as contracts speak of it.
pub enum DecodedView {
    Frame(FrameView),
    NeedMoreBytes,
    Error(ConnectionError),
}

impl View for Decoded {
    type V = DecodedView;

    open spec fn view(&self) -> DecodedView {
        match self {
            Decoded::Frame(frame) => DecodedView::Frame(frame@),
            Decoded::NeedMoreBytes => DecodedView::NeedMoreBytes,
            Decoded::Error(error) => DecodedView::Error(*error),
        }
    }
}

/// The FIN flag: bit `0x80` of a frame's first byte.
pub open spec fn fin_bit(first: u8) -> bool {
    first & 0x80 != 0
}

/// The opcode field: the low four bits of a frame's first byte.
pub open spec fn opcode_bits(first: u8) -> u8 {
    first & 0x0f
}

/// The mask flag: the high bit of a frame's second byte.
pub open spec fn mask_bit(second: u8) -> bool {
    second & 0x80 != 0
}

/// The length indicator: the low seven bits of a frame's second byte.
pub open spec fn length_indicator(second: u8) -> u8 {
    second & 0x7f
}

/// How many bytes after the second carry the payload length: none up to an
/// indicator of 125, two for 126, eight for 127.
pub open spec fn extended_length_size(indicator: u8) -> nat {
    if indicator <= 125 {
        0
    } else if indicator == 126 {
        2
    } else {
        8
    }
}

/// The buffer holds a frame's first two bytes and all the bytes of its
/// length.
pub open spec fn header_is_complete(buf: Seq<u8>) -> bool {
    &&& buf.len() >= 2
    &&& buf.len() >= 2 + extended_length_size(length_indicator(buf[1]))
}

/// The payload length that a complete header declares.
pub open spec fn declared_payload_length(buf: Seq<u8>) -> nat {
    let indicator = length_indicator(buf[1]);
    if indicator <= 125 {
        indicator as nat
    } else if indicator == 126 {
        be_u16(buf.subrange(2, 4))
    } else {
        be_u64(buf.subrange(2, 10))
    }
}

/// Where the mask key stands in a frame, if it has one: after the length.
pub open spec fn mask_key_offset(buf: Seq<u8>) -> nat {
    2 + extended_length_size(length_indicator(buf[1]))
}

/// Where the payload stands in a frame: after the mask key, if there is one.
pub open spec fn payload_offset(buf: Seq<u8>) -> nat {
    if mask_bit(buf[1]) {
        mask_key_offset(buf) + 4
    } else {
        mask_key_offset(buf)
    }
}

/// The length of the whole frame that a complete header declares: header,
/// mask key and payload.
pub open spec fn declared_frame_length(buf: Seq<u8>) -> nat {
    payload_offset(buf) + declared_payload_length(buf)
}

/// What a buffer decodes to.
///
/// As long as the buffer ends before the header does, or before the frame
/// that the header declares, more bytes are needed. A whole frame without
/// a mask, or with an opcode that stands for nothing, is a protocol
/// violation. Any other whole frame is decoded, its payload unmasked;
/// bytes after it are not looked at.
pub open spec fn decoding(buf: Seq<u8>) -> DecodedView {
    if !header_is_complete(buf) || buf.len() < declared_frame_length(buf) {
        DecodedView::NeedMoreBytes
    } else if !mask_bit(buf[1]) {
        DecodedView::Error(ConnectionError::ProtocolViolation)
    } else {
        match Opcode::from_code(opcode_bits(buf[0])) {
            None => DecodedView::Error(ConnectionError::ProtocolViolation),
            Some(opcode) => {
                let key = buf.subrange(mask_key_offset(buf) as int, payload_offset(buf) as int);
                let raw = buf.subrange(
                    payload_offset(buf) as int,
                    declared_frame_length(buf) as int,
                );
                DecodedView::Frame(
                    FrameView {
                        opcode,
                        fin: fin_bit(buf[0]),
                        masked: true,
                        mask_key: Some(key),
                        payload_length: declared_payload_length(buf),
                        payload: masked(raw, key),
                    },
                )
            },
        }
    }
}

/// Decodes the frame at the start of `buf`.
///
/// Nothing is read past the end of the buffer: a buffer that is shorter
/// than the frame it declares gives `NeedMoreBytes`.
pub fn decode_frame(buf: &[u8]) -> (result: Decoded)
    ensures
        result@ == decoding(buf@),
        result is NeedMoreBytes <==> !header_is_complete(buf@) || buf@.len()
            < declared_frame_length(buf@),
        result matches Decoded::Frame(frame) ==> frame@.well_formed(),
{
    let available = buf.len();
    if available < 2 {
        return Decoded::NeedMoreBytes;
    }
    let first = buf[0];
    let second = buf[1];
    let indicator = second & 0x7f;
    let has_mask = second & 0x80 != 0;
    let length_size: usize = if indicator <= 125 {
        0
    } else if indicator == 126 {
        2
    } else {
        8
    };
    if available < 2 + length_size {
        return Decoded::NeedMoreBytes;
    }
    let payload_length: u64 = if indicator <= 125 {
        indicator as u64
    } else if indicator == 126 {
        read_be_u16(buf, 2) as u64
    } else {
        read_be_u64(buf, 2)
    };
    let key_at: usize = 2 + length_size;
    let payload_at: usize = if has_mask {
        key_at + 4
    } else {
        key_at
    };
    if available < payload_at {
        return Decoded::NeedMoreBytes;
    }
    if payload_length > (available - payload_at) as u64 {
        return Decoded::NeedMoreBytes;
    }
    if !has_mask {
        return Decoded::Error(ConnectionError::ProtocolViolation);
    }
    match Opcode::from_u8(first & 0x0f) {
        None => Decoded::Error(ConnectionError::ProtocolViolation),
        Some(opcode) => {
            let key: [u8; 4] = [buf[key_at], buf[key_at + 1], buf[key_at + 2], buf[key_at + 3]];
            assert(key@ =~= buf@.subrange(key_at as int, payload_at as int));
            let end: usize = payload_at + payload_length as usize;
            let payload = apply_mask(slice_subrange(buf, payload_at, end), &key);
            Decoded::Frame(
                Frame {
                    opcode,
                    fin: first & 0x80 != 0,
                    masked: true,
                    mask_key: Some(key),
                    payload_length,
                    payload,
                },
            )
        },
    }
}

/// The second byte of a frame: the length indicator in the low seven
/// bits, and the high bit set where a mask key follows.
pub open spec fn second_byte(indicator: u8, with_mask: bool) -> u8 {
    if with_mask {
        0x80u8 | indicator
    } else {
        indicator
    }
}

/// The second byte of a frame and the bytes of its length, for a payload
/// of `length` bytes: the length itself up to 125, else 126 and two bytes,
/// else 127 and eight bytes.
pub open spec fn length_bytes(length: nat, with_mask: bool) -> Seq<u8> {
    if length <= 125 {
        seq![second_byte(length as u8, with_mask)]
    } else if length <= 0xffff {
        seq![second_byte(126, with_mask)] + u16_be_bytes(length)
    } else {
        seq![second_byte(127, with_mask)] + u64_be_bytes(length)
    }
}

/// The header of a final frame: FIN and the opcode, then the length.
pub open spec fn frame_header(opcode: Opcode, with_mask: bool, length: nat) -> Seq<u8> {
    seq![0x80u8 | opcode.code()] + length_bytes(length, with_mask)
}

/// A frame from server to client: the header without a mask, then the
/// payload as it is.
pub open spec fn encoded(opcode: Opcode, payload: Seq<u8>) -> Seq<u8> {
    frame_header(opcode, false, payload.len()) + payload
}

/// A frame from client to server: the header with the mask flag, the key,
/// then the masked payload.
pub open spec fn encoded_masked(opcode: Opcode, key: Seq<u8>, payload: Seq<u8>) -> Seq<u8> {
    frame_header(opcode, true, payload.len()) + key + masked(payload, key)
}

fn second_byte_of(indicator: u8, with_mask: bool) -> (byte: u8)
    ensures
        byte == second_byte(indicator, with_mask),
{
    if with_mask {
        0x80 | indicator
    } else {
        indicator
    }
}

fn push_header(out: &mut Vec<u8>, opcode: Opcode, with_mask: bool, length: u64)
    ensures
        final(out)@ == old(out)@ + frame_header(opcode, with_mask, length as nat),
{
    out.push(0x80 | opcode.to_u8());
    if length <= 125 {
        out.push(second_byte_of(length as u8, with_mask));
    } else if length <= 0xffff {
        out.push(second_byte_of(126, with_mask));
        push_be_u16(out, length as u16);
    } else {
        out.push(second_byte_of(127, with_mask));
        push_be_u64(out, length);
    }
    assert(out@ =~= old(out)@ + frame_header(opcode, with_mask, length as nat));
}

/// Encodes a frame for the client: final, never masked.
pub fn encode_frame(opcode: Opcode, payload: &[u8]) -> (bytes: Vec<u8>)
    ensures
        bytes@ == encoded(opcode, payload@),
{
    let mut bytes: Vec<u8> = Vec::new();
    push_header(&mut bytes, opcode, false, payload.len() as u64);
    bytes.extend_from_slice(payload);
    assert(bytes@ =~= encoded(opcode, payload@));
    bytes
}

/// Encodes a frame as a client sends it: final, masked with `mask_key`.
pub fn encode_masked_frame(opcode: Opcode, mask_key: &[u8; 4], payload: &[u8]) -> (bytes: Vec<u8>)
    ensures
        bytes@ == encoded_masked(opcode, mask_key@, payload@),
{
    let mut bytes: Vec<u8> = Vec::new();
    push_header(&mut bytes, opcode, true, payload.len() as u64);
    bytes.extend_from_slice(mask_key.as_slice());
    let body = apply_mask(payload, mask_key);
    bytes.extend_from_slice(body.as_slice());
    assert(bytes@ =~= encoded_masked(opcode, mask_key@, payload@));
    bytes
}

proof fn lemma_first_byte(opcode: Opcode)
    ensures
        fin_bit(0x80u8 | opcode.code()),
        opcode_bits(0x80u8 | opcode.code()) == opcode.code(),
        Opcode::from_code(opcode.code()) == Some(opcode),
{
    let code = opcode.code();
    assert((0x80u8 | code) & 0x80 != 0) by (bit_vector);
    assert(code < 16 ==> (0x80u8 | code) & 0x0f == code) by (bit_vector);
}

proof fn lemma_second_byte(indicator: u8, with_mask: bool)
    requires
        indicator <= 127,
    ensures
        length_indicator(second_byte(indicator, with_mask)) == indicator,
        mask_bit(second_byte(indicator, with_mask)) == with_mask,
{
    assert(indicator <= 127 ==> (0x80u8 | indicator) & 0x7f == indicator) by (bit_vector);
    assert((0x80u8 | indicator) & 0x80 != 0) by (bit_vector);
    assert(indicator <= 127 ==> indicator & 0x7f == indicator) by (bit_vector);
    assert(indicator <= 127 ==> indicator & 0x80 == 0) by (bit_vector);
}

/// What the header written for a payload declares, read back: the header is
/// complete, and it declares that payload length and that mask flag.
proof fn lemma_header_read_back(opcode: Opcode, with_mask: bool, length: nat, rest: Seq<u8>)
    requires
        length < 0x1_0000_0000_0000_0000,
    ensures
        ({
            let header = frame_header(opcode, with_mask, length);
            let buf = header + rest;
            &&& header_is_complete(buf)
            &&& buf[0] == 0x80u8 | opcode.code()
            &&& mask_bit(buf[1]) == with_mask
            &&& mask_key_offset(buf) == header.len()
            &&& declared_payload_length(buf) == length
        }),
{
    let header = frame_header(opcode, with_mask, length);
    let buf = header + rest;
    if length <= 125 {
        lemma_second_byte(length as u8, with_mask);
    } else if length <= 0xffff {
        lemma_second_byte(126, with_mask);
        lemma_be_u16_round_trip(length);
        assert(buf.subrange(2, 4) =~= u16_be_bytes(length));
    } else {
        lemma_second_byte(127, with_mask);
        lemma_be_u64_round_trip(length);
        assert(buf.subrange(2, 10) =~= u64_be_bytes(length));
    }
}

/// Decoding what a client's encoder wrote gives back the opcode and the
/// payload, whatever the key, for every payload length, and whatever
/// follows the frame in the buffer.
pub proof fn lemma_masked_frame_round_trip(
    opcode: Opcode,
    key: Seq<u8>,
    payload: Seq<u8>,
    rest: Seq<u8>,
)
    requires
        key.len() == 4,
        payload.len() < 0x1_0000_0000_0000_0000,
    ensures
        decoding(encoded_masked(opcode, key, payload) + rest) == DecodedView::Frame(
            FrameView {
                opcode,
                fin: true,
                masked: true,
                mask_key: Some(key),
                payload_length: payload.len(),
                payload,
            },
        ),
{
    let header = frame_header(opcode, true, payload.len());
    let body = masked(payload, key);
    let buf = encoded_masked(opcode, key, payload) + rest;
    assert(buf =~= header + (key + body + rest));
    lemma_header_read_back(opcode, true, payload.len(), key + body + rest);
    lemma_first_byte(opcode);
    lemma_mask_is_self_inverse(payload, key);
    let key_at = header.len() as int;
    assert(buf.subrange(key_at, key_at + 4) =~= key);
    assert(buf.subrange(key_at + 4, key_at + 4 + payload.len()) =~= body);
}

/// A frame as the server encodes it carries no mask, so the decoder, which
/// reads what clients send, refuses it.
pub proof fn lemma_unmasked_frame_is_refused(opcode: Opcode, payload: Seq<u8>, rest: Seq<u8>)
    requires
        payload.len() < 0x1_0000_0000_0000_0000,
    ensures
        decoding(encoded(opcode, payload) + rest) == DecodedView::Error(
            ConnectionError::ProtocolViolation,
        ),
{
    let header = frame_header(opcode, false, payload.len());
    let buf = encoded(opcode, payload) + rest;
    assert(buf =~= header + (payload + rest));
    lemma_header_read_back(opcode, false, payload.len(), payload + rest);
}

/// A buffer that ends before the frame it starts does decodes to
/// `NeedMoreBytes`: so does every proper prefix of a buffer that holds a
/// whole frame.
pub proof fn lemma_truncated_frame_needs_more_bytes(buf: Seq<u8>, cut: int)
    requires
        header_is_complete(buf),
        0 <= cut <= buf.len(),
        cut < declared_frame_length(buf),
    ensures
        decoding(buf.subrange(0, cut)) == DecodedView::NeedMoreBytes,
{
    let short = buf.subrange(0, cut);
    if header_is_complete(short) {
        assert(short[1] == buf[1]);
        if length_indicator(buf[1]) == 126 {
            assert(short.subrange(2, 4) =~= buf.subrange(2, 4));
        } else if length_indicator(buf[1]) > 126 {
            assert(short.subrange(2, 10) =~= buf.subrange(2, 10));
        }
        assert(declared_frame_length(short) == declared_frame_length(buf));
    }
}

} // verus!
