//! The request that opens a connection, and the HTTP tokenizer of
//! `httparse` that reads it from the first bytes received.

use vstd::prelude::*;

verus! {

/// One header of a request. The name is kept as received; the value is
/// bytes, since nothing makes it text.
#[derive(Clone, Debug, PartialEq, Eq)]
pub struct HeaderField {
    pub name: String,
    pub value: Vec<u8>,
}

/// A header as contracts speak of it.
pub struct HeaderFieldView {
    pub name: Seq<char>,
    pub value: Seq<u8>,
}

impl View for HeaderField {
    type V = HeaderFieldView;

    open spec fn view(&self) -> HeaderFieldView {
        HeaderFieldView { name: self.name@, value: self.value@ }
    }
}

/// The headers as contracts speak of them, in their order.
pub open spec fn header_views(headers: Seq<HeaderField>) -> Seq<HeaderFieldView> {
    headers.map_values(|header: HeaderField| header@)
}

/// What the first bytes of a connection ask for: a path, and the headers
/// in the order in which they came.
#[derive(Clone, Debug, PartialEq, Eq)]
pub struct IncomingRequest {
    pub path: String,
    pub headers: Vec<HeaderField>,
}

/// A request as contracts speak of it.
pub struct IncomingRequestView {
    pub path: Seq<char>,
    pub headers: Seq<HeaderFieldView>,
}

impl View for IncomingRequest {
    type V = IncomingRequestView;

    open spec fn view(&self) -> IncomingRequestView {
        IncomingRequestView {
            path: self.path@,
            headers: header_views(self.headers@),
        }
    }
}

/// The most header slots that the tokenizer is ever given.
pub const MAX_HEADER_SLOTS: usize = 0xffff;

/// The request that `httparse` reads from `buf` when it has room for
/// `max_headers` headers; `None` where `buf` does not start with one
/// complete, valid request with no more headers than that.
pub uninterp spec fn parsed_request(buf: Seq<u8>, max_headers: nat) -> Option<IncomingRequestView>;

/// `httparse::Error`, which is passed on unopened.
#[verifier::external_type_specification]
#[verifier::external_body]
pub struct ExHttpError(httparse::Error);

/// Calls `httparse::Request::new` and `httparse::Request::parse`, and copies
/// the path and the headers out of what they leave.
///
/// Believed: what comes back depends on the bytes and the number of slots
/// alone. A request is handed out only for `Status::Complete`, with the
/// path and the headers that the tokenizer has then filled in; `Partial`
/// gives `Ok(None)`, and the tokenizer's own error is passed on. The
/// number of slots is bounded so that allocating them cannot fail on its
/// size.
#[verifier::external_body]
pub(crate) fn parse_request(buf: &[u8], max_headers: usize) -> (parsed: Result<
    Option<IncomingRequest>,
    httparse::Error,
>)
    requires
        max_headers <= MAX_HEADER_SLOTS,
    ensures
        parsed matches Ok(Some(request)) ==> parsed_request(buf@, max_headers as nat) == Some(
            request@,
        ),
        !(parsed matches Ok(Some(_))) ==> parsed_request(buf@, max_headers as nat) is None,
{
    let mut slots = vec![httparse::EMPTY_HEADER; max_headers];
    let mut request = httparse::Request::new(&mut slots);
    let status = request.parse(buf)?;
    let headers = request.headers.iter().map(
        |h| HeaderField { name: h.name.to_string(), value: h.value.to_vec() },
    ).collect();
    match status {
        httparse::Status::Complete(_) => Ok(
            request.path.map(|path| IncomingRequest { path: path.to_string(), headers }),
        ),
        httparse::Status::Partial => Ok(None),
    }
}

} // verus!
