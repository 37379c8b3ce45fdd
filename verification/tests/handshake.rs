use ws_endpoint::error::ConnectionError;
use ws_endpoint::handshake::{
    create_response_header, derive_accept_token, find_handshake_key,
    generate_sec_websocket_accept, KEY_HEADER, MAX_KEY_LEN, WEBSOCKET_GUID,
};
use ws_endpoint::page::generate_connect_websocket_response;
use ws_endpoint::request::HeaderField;

fn header(name: &str, value: &[u8]) -> HeaderField {
    HeaderField { name: name.to_string(), value: value.to_vec() }
}

#[test]
fn accept_token_of_the_rfc_sample_key() {
    let token = derive_accept_token(b"dGhlIHNhbXBsZSBub25jZQ==");
    assert_eq!(token, "s3pPLMBiTxaQ9kYGzzhZRbK+xOo=");
}

#[test]
fn accept_token_is_a_function_of_the_key() {
    let first = derive_accept_token(b"x3JJHMbDL1EzLkh9GBhXDw==");
    let second = derive_accept_token(b"x3JJHMbDL1EzLkh9GBhXDw==");
    assert_eq!(first, second);
    assert_eq!(first, "HSmrc0sMlYUkAGmm5OPpG2HaGWk=");
    assert_ne!(first, derive_accept_token(b"dGhlIHNhbXBsZSBub25jZQ=="));
}

#[test]
fn accept_token_of_the_empty_key_is_the_digest_of_the_guid() {
    // with no key, what is hashed is the GUID alone
    let token = derive_accept_token(b"");
    assert_eq!(token, "Kfh9QIsMVZcl6xEPYxPHzW8SZ8w=");
}

#[test]
fn accept_token_decodes_to_twenty_bytes() {
    let keys: [&[u8]; 5] = [
        b"",
        b"a",
        b"dGhlIHNhbXBsZSBub25jZQ==",
        b"not base64 at all, and rather long for a key: 0123456789012345678901234567890123456789",
        &[0xff, 0x00, 0x80, 0x7f],
    ];
    for key in keys {
        let token = derive_accept_token(key);
        assert_eq!(token.len(), 28);
        assert!(token.ends_with('='));
        assert!(!token.ends_with("=="));
        let digest = base64::decode(&token).unwrap();
        assert_eq!(digest.len(), 20);
    }
}

#[test]
fn accept_token_is_not_the_key_nor_its_hex_digest() {
    let token = derive_accept_token(b"dGhlIHNhbXBsZSBub25jZQ==");
    assert_ne!(token.as_bytes(), b"dGhlIHNhbXBsZSBub25jZQ==");
    // the hexadecimal digest of the sample key and the GUID
    assert_ne!(token, "b37a4f2cc0624f1690f64606cf385945b2bec4ea");
    assert_eq!(
        base64::decode(&token).unwrap(),
        vec![
            0xb3, 0x7a, 0x4f, 0x2c, 0xc0, 0x62, 0x4f, 0x16, 0x90, 0xf6, 0x46, 0x06, 0xcf, 0x38,
            0x59, 0x45, 0xb2, 0xbe, 0xc4, 0xea
        ]
    );
}

#[test]
fn guid_and_limits() {
    assert_eq!(WEBSOCKET_GUID, "258EAFA5-E914-47DA-95CA-C5AB0DC85B11");
    assert_eq!(WEBSOCKET_GUID.len(), 36);
    assert_eq!(MAX_KEY_LEN + 36 + 1, 1u64 << 61);
    assert_eq!(KEY_HEADER, "Sec-WebSocket-Key");
}

#[test]
fn key_is_found_among_the_headers() {
    let headers = vec![
        header("Host", b"localhost:8080"),
        header("Sec-WebSocket-Key", b"dGhlIHNhbXBsZSBub25jZQ=="),
        header("Sec-WebSocket-Version", b"13"),
    ];
    assert_eq!(find_handshake_key(&headers), Some(&b"dGhlIHNhbXBsZSBub25jZQ==".to_vec()));
    assert_eq!(
        generate_sec_websocket_accept(&headers),
        Ok("s3pPLMBiTxaQ9kYGzzhZRbK+xOo=".to_string())
    );
}

#[test]
fn first_key_wins() {
    let headers = vec![
        header("Sec-WebSocket-Key", b"dGhlIHNhbXBsZSBub25jZQ=="),
        header("Sec-WebSocket-Key", b"x3JJHMbDL1EzLkh9GBhXDw=="),
    ];
    assert_eq!(
        generate_sec_websocket_accept(&headers),
        Ok("s3pPLMBiTxaQ9kYGzzhZRbK+xOo=".to_string())
    );
}

#[test]
fn missing_key_is_an_error() {
    let none: Vec<HeaderField> = Vec::new();
    assert_eq!(find_handshake_key(&none), None);
    assert_eq!(generate_sec_websocket_accept(&none), Err(ConnectionError::MissingHandshakeKey));
    let others = vec![header("Host", b"localhost"), header("Upgrade", b"websocket")];
    assert_eq!(generate_sec_websocket_accept(&others), Err(ConnectionError::MissingHandshakeKey));
}

#[test]
fn header_name_is_compared_as_received() {
    let lower = vec![header("sec-websocket-key", b"dGhlIHNhbXBsZSBub25jZQ==")];
    assert_eq!(generate_sec_websocket_accept(&lower), Err(ConnectionError::MissingHandshakeKey));
    let upper = vec![header("SEC-WEBSOCKET-KEY", b"dGhlIHNhbXBsZSBub25jZQ==")];
    assert_eq!(generate_sec_websocket_accept(&upper), Err(ConnectionError::MissingHandshakeKey));
    let longer = vec![header("Sec-WebSocket-Key2", b"dGhlIHNhbXBsZSBub25jZQ==")];
    assert_eq!(generate_sec_websocket_accept(&longer), Err(ConnectionError::MissingHandshakeKey));
}

#[test]
fn key_need_not_be_text() {
    let headers = vec![header("Sec-WebSocket-Key", &[0xff, 0xfe, 0x00])];
    let token = generate_sec_websocket_accept(&headers).unwrap();
    assert_eq!(token, derive_accept_token(&[0xff, 0xfe, 0x00]));
    assert_eq!(base64::decode(&token).unwrap().len(), 20);
}

#[test]
fn response_header_is_the_literal_upgrade_response() {
    let header = create_response_header("s3pPLMBiTxaQ9kYGzzhZRbK+xOo=".to_string());
    assert_eq!(
        header,
        "HTTP/1.1 101 Switching Protocols\r\n\
         Upgrade: websocket\r\n\
         Connection: Upgrade\r\n\
         Sec-WebSocket-Accept: s3pPLMBiTxaQ9kYGzzhZRbK+xOo=\r\n\
         Sec-WebSocket-Protocol: chat\r\n\r\n"
    );
}

#[test]
fn response_header_carries_any_token_as_given() {
    let header = create_response_header(String::new());
    assert_eq!(
        header,
        "HTTP/1.1 101 Switching Protocols\r\nUpgrade: websocket\r\nConnection: Upgrade\r\nSec-WebSocket-Accept: \r\nSec-WebSocket-Protocol: chat\r\n\r\n"
    );
    let other = create_response_header("abc".to_string());
    assert!(other.contains("Sec-WebSocket-Accept: abc\r\n"));
    assert_eq!(other.len(), header.len() + 3);
}

#[test]
fn plain_page_is_a_200_response_with_the_script() {
    let page = generate_connect_websocket_response();
    assert!(page.starts_with("HTTP/1.1 200 OK\r\nContent-Type: text/html; charset=UTF-8\r\n\r\n<html>"));
    assert!(page.contains("<title>rust web socket</title>"));
    assert!(page.contains("<script type='text/javascript'>(function () {\n"));
    assert!(page.contains("new WebSocket('ws://localhost:8080/websocket', ['test', 'chat'])"));
    assert!(page.contains("ws.send('test');"));
    assert!(page.ends_with("})()</script></head><body>hello world!!!!!</body></html>\r\n"));
    assert_eq!(page, generate_connect_websocket_response());
}
