//! The opening handshake: the accept token that answers a client's key, and
//! the upgrade response that carries it.

use crate::encoding::{
    base64_text, decode_hex, encode_base64, hex_bytes, hex_digit_value, is_base64_of_len,
    is_hex_text, is_lower_hex_char, sha1_hex, sha1_hex_digest,
};
use crate::error::ConnectionError;
use crate::request::{header_views, HeaderField, HeaderFieldView};
use vstd::prelude::*;
use vstd::utf8::*;

verus! {

/// The fixed string that every server appends to the client's key before
/// hashing it.
pub const WEBSOCKET_GUID: &'static str = "258EAFA5-E914-47DA-95CA-C5AB0DC85B11";

/// The longest key that can be hashed: with the 36 bytes of the GUID it
/// stays under `SHA1_MESSAGE_LIMIT`.
pub const MAX_KEY_LEN: u64 = 0x1fff_ffff_ffff_ffdb;

/// The digest that answers a key: the SHA-1 digest of the key followed by
/// the GUID, as bytes read back from its hexadecimal text.
pub open spec fn accept_digest(key: Seq<u8>) -> Seq<u8> {
    hex_bytes(encode_utf8(sha1_hex(key + encode_utf8(WEBSOCKET_GUID@))))
}

/// The accept token for a key: the Base64 text of its digest.
pub open spec fn accept_token(key: Seq<u8>) -> Seq<char> {
    base64_text(accept_digest(key))
}

proof fn lemma_guid_bytes()
    ensures
        encode_utf8(WEBSOCKET_GUID@).len() == 36,
{
    reveal_strlit("258EAFA5-E914-47DA-95CA-C5AB0DC85B11");
    assert(is_ascii_chars(WEBSOCKET_GUID@));
    is_ascii_chars_encode_utf8(WEBSOCKET_GUID@);
}

/// The bytes of a text of lower-case hexadecimal digits are hexadecimal
/// digits, one byte to a character.
proof fn lemma_hex_digest_bytes(text: Seq<char>)
    requires
        text.len() % 2 == 0,
        forall|i: int| 0 <= i < text.len() ==> is_lower_hex_char(#[trigger] text[i]),
    ensures
        is_hex_text(encode_utf8(text)),
        encode_utf8(text).len() == text.len(),
{
    assert(is_ascii_chars(text));
    is_ascii_chars_encode_utf8(text);
    let bytes = encode_utf8(text);
    assert forall|i: int| 0 <= i < bytes.len() implies (#[trigger] hex_digit_value(
        bytes[i],
    )) is Some by {
        assert(is_lower_hex_char(text[i]));
        assert(text[i] as u8 == bytes[i]);
    }
}

/// Derives the accept token from the client's key.
///
/// The token is a function of the key alone. It is always the Base64 text
/// of 20 bytes, the length of a SHA-1 digest, and valid as such.
pub fn derive_accept_token(key: &[u8]) -> (token: String)
    requires
        key@.len() <= MAX_KEY_LEN,
    ensures
        token@ == accept_token(key@),
        accept_digest(key@).len() == 20,
        is_base64_of_len(token@, 20),
{
    let mut message: Vec<u8> = Vec::new();
    message.extend_from_slice(key);
    message.extend_from_slice(WEBSOCKET_GUID.as_bytes());
    proof {
        lemma_guid_bytes();
        assert(message@ =~= key@ + encode_utf8(WEBSOCKET_GUID@));
    }
    let digest_text = sha1_hex_digest(message.as_slice());
    proof {
        lemma_hex_digest_bytes(digest_text@);
    }
    let digest = decode_hex(digest_text.as_str().as_bytes()).unwrap();
    encode_base64(digest.as_slice())
}

/// The name of the header that carries the client's key. Names are
/// compared as received, letter case included.
pub const KEY_HEADER: &'static str = "Sec-WebSocket-Key";

/// The client's key: the value of the first header named `KEY_HEADER`, if
/// there is one.
pub open spec fn handshake_key(headers: Seq<HeaderFieldView>) -> Option<Seq<u8>>
    decreases headers.len(),
{
    if headers.len() == 0 {
        None
    } else if headers[0].name == KEY_HEADER@ {
        Some(headers[0].value)
    } else {
        handshake_key(headers.drop_first())
    }
}

/// The key among `headers` is one that can be hashed.
pub open spec fn key_fits(headers: Seq<HeaderFieldView>) -> bool {
    handshake_key(headers) matches Some(key) ==> key.len() <= MAX_KEY_LEN
}

/// Finds the client's key among the headers.
pub fn find_handshake_key(headers: &[HeaderField]) -> (found: Option<&Vec<u8>>)
    ensures
        match found {
            Some(value) => handshake_key(header_views(headers@)) == Some(value@),
            None => handshake_key(header_views(headers@)) is None,
        },
{
    let wanted = KEY_HEADER.to_owned();
    let ghost all = header_views(headers@);
    assert(all.subrange(0, all.len() as int) =~= all);
    let mut i: usize = 0;
    while i < headers.len()
        invariant
            i <= headers@.len(),
            wanted@ == KEY_HEADER@,
            all == header_views(headers@),
            handshake_key(all) == handshake_key(all.subrange(i as int, all.len() as int)),
        decreases headers@.len() - i,
    {
        let ghost rest = all.subrange(i as int, all.len() as int);
        assert(rest[0] == headers@[i as int]@);
        if headers[i].name == wanted {
            return Some(&headers[i].value);
        }
        assert(rest.drop_first() =~= all.subrange(i + 1, all.len() as int));
        i += 1;
    }
    assert(all.subrange(i as int, all.len() as int).len() == 0);
    None
}

/// Answers the client's key: the accept token for the value of the first
/// `Sec-WebSocket-Key` header, or `MissingHandshakeKey` where the request
/// has none.
pub fn generate_sec_websocket_accept(headers: &[HeaderField]) -> (result: Result<
    String,
    ConnectionError,
>)
    requires
        key_fits(header_views(headers@)),
    ensures
        match handshake_key(header_views(headers@)) {
            Some(key) => result matches Ok(token) && token@ == accept_token(key)
                && accept_digest(key).len() == 20 && is_base64_of_len(token@, 20),
            None => result == Err::<String, ConnectionError>(
                ConnectionError::MissingHandshakeKey,
            ),
        },
{
    match find_handshake_key(headers) {
        Some(key) => Ok(derive_accept_token(key.as_slice())),
        None => Err(ConnectionError::MissingHandshakeKey),
    }
}

/// The upgrade response that carries `token`.
pub open spec fn response_header(token: Seq<char>) -> Seq<char> {
    "HTTP/1.1 101 Switching Protocols\r\n"@ + "Upgrade: websocket\r\n"@
        + "Connection: Upgrade\r\n"@ + "Sec-WebSocket-Accept: "@ + token + "\r\n"@
        + "Sec-WebSocket-Protocol: chat\r\n\r\n"@
}

/// Builds the response that switches the connection to the WebSocket
/// protocol: the status line, the two upgrade headers, the accept token,
/// and the fixed subprotocol `chat`.
pub fn create_response_header(sha1_base64: String) -> (header: String)
    ensures
        header@ == response_header(sha1_base64@),
{
    let mut header = "HTTP/1.1 101 Switching Protocols\r\n".to_owned();
    header.append("Upgrade: websocket\r\n");
    header.append("Connection: Upgrade\r\n");
    header.append("Sec-WebSocket-Accept: ");
    header.append(sha1_base64.as_str());
    header.append("\r\n");
    header.append("Sec-WebSocket-Protocol: chat\r\n\r\n");
    header
}

} // verus!
