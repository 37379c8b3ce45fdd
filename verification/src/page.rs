//! The plain page served at the root path: a small HTML document whose
//! script opens a WebSocket to this endpoint and sends one message.

use vstd::prelude::*;

verus! {

/// The status line of the page's response.
pub const PAGE_STATUS: &'static str = "HTTP/1.1 200 OK\r\n";

/// The headers of the page's response, with the empty line that ends them.
pub const PAGE_HEADERS: &'static str = "Content-Type: text/html; charset=UTF-8\r\n\r\n";

/// The document up to the script.
pub const PAGE_OPENING: &'static str =
    "<html><head><title>rust web socket</title><script type='text/javascript'>(";

/// The script: it connects, sends `test` and logs what comes back.
pub const CLIENT_SCRIPT: &'static str = "function () {
        var ws = new WebSocket('ws://localhost:8080/websocket', ['test', 'chat']);
        ws.onopen = function() {
            console.log(ws);
            ws.send('test');
            ws.onmessage = function(message) {
                console.log(message.data);
            };
        }
    }";

/// The document after the script.
pub const PAGE_CLOSING: &'static str = ")()</script></head><body>hello world!!!!!</body></html>";

/// The line end that closes the response.
pub const PAGE_END: &'static str = "\r\n";

/// The whole response for the root path.
pub open spec fn connect_page() -> Seq<char> {
    PAGE_STATUS@ + PAGE_HEADERS@ + PAGE_OPENING@ + CLIENT_SCRIPT@ + PAGE_CLOSING@ + PAGE_END@
}

/// Builds the response for the root path: `200 OK` with the HTML page.
pub fn generate_connect_websocket_response() -> (response: String)
    ensures
        response@ == connect_page(),
{
    let mut response = PAGE_STATUS.to_owned();
    response.append(PAGE_HEADERS);
    response.append(PAGE_OPENING);
    response.append(CLIENT_SCRIPT);
    response.append(PAGE_CLOSING);
    response.append(PAGE_END);
    response
}

} // verus!
