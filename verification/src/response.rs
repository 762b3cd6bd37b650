use vstd::prelude::*;
use vstd::string::StringExecFns;
use vstd::utf8::encode_utf8;
use crate::code::Code;
use crate::text::append_bytes;
use crate::text::decimal;
use crate::text::push_decimal;
use crate::typemod::Type;

verus! {

/// A response ready to be written: its bytes, and whether the connection
/// must be closed once they are out.
#[derive(Debug)]
pub struct Response {
    close_connection: bool,
    message: Vec<u8>,
}

/// What a `Response` holds.
pub struct ResponseView {
    pub close_connection: bool,
    pub message: Seq<u8>,
}

impl View for Response {
    type V = ResponseView;

    closed spec fn view(&self) -> ResponseView {
        ResponseView { close_connection: self.close_connection, message: self.message@ }
    }
}

/// One line of the head as it goes on the wire.
pub open spec fn line(text: Seq<char>) -> Seq<u8> {
    encode_utf8(text + "\r\n"@)
}

/// The status line, the headers and the empty line that ends them, for a
/// body of `length` bytes.
pub open spec fn head(code: Code, typ: Type, length: nat) -> Seq<u8> {
    line("HTTP/1.1 "@ + code.text()) + line("Date: Thu, 20 Dec 2001 12:04:30 GMT"@) + line(
        "Content-Type: "@ + typ.text(),
    ) + line("Connection: keep-alive"@) + line("Content-length: "@ + decimal(length)) + line(
        Seq::<char>::empty(),
    )
}

/// The response that carries a text body. The body goes out as a line of
/// its own; the declared length counts the body alone.
pub open spec fn page(code: Code, typ: Type, body: Seq<char>) -> ResponseView {
    ResponseView {
        close_connection: code.forces_close(),
        message: head(code, typ, encode_utf8(body).len()) + line(body),
    }
}

/// The response that carries a body of raw bytes.
pub open spec fn file(code: Code, typ: Type, body: Seq<u8>) -> ResponseView {
    ResponseView {
        close_connection: code.forces_close(),
        message: head(code, typ, body.len()) + body,
    }
}

/// The answer to a request that could not be understood.
pub open spec fn bad_request() -> ResponseView {
    page(Code::Code400, Type::TextHtml, "400 Bad Request"@)
}

/// The answer sent on behalf of a handler that gave none.
pub open spec fn server_error() -> ResponseView {
    page(Code::Code500, Type::TextHtml, "500 Internal Server Error"@)
}

impl Response {
    /// The bytes that go on the wire.
    pub fn as_bytes(self) -> (bytes: Vec<u8>)
        ensures
            bytes@ == self@.message,
    {
        self.message
    }

    fn append_string(&mut self, text: String)
        ensures
            final(self)@.close_connection == old(self)@.close_connection,
            final(self)@.message == old(self)@.message + line(text@),
    {
        let ended = text.concat("\r\n");
        append_bytes(&mut self.message, ended.as_str().as_bytes());
    }

    /// Whether the connection must be closed once the response is out.
    pub fn close_connection(&self) -> (close: bool)
        ensures
            close == self@.close_connection,
    {
        self.close_connection
    }

    fn create_headers(code: Code, typ: Type, length: usize) -> (response: Response)
        ensures
            response@.close_connection == code.forces_close(),
            response@.message == head(code, typ, length as nat),
    {
        let mut response = Response {
            close_connection: code.closes_connection(),
            message: Vec::new(),
        };
        response.append_string("HTTP/1.1 ".to_owned().concat(code.to_str()));
        response.append_string("Date: Thu, 20 Dec 2001 12:04:30 GMT".to_owned());
        response.append_string("Content-Type: ".to_owned().concat(typ.to_str()));
        response.append_string("Connection: keep-alive".to_owned());
        let mut length_line = "Content-length: ".to_owned();
        push_decimal(&mut length_line, length);
        response.append_string(length_line);
        response.append_string(String::new());
        response
    }

    /// A response with a text body.
    pub fn create(code: Code, typ: Type, body: String) -> (response: Response)
        ensures
            response@ == page(code, typ, body@),
    {
        let length = body.as_str().as_bytes().len();
        let mut response = Response::create_headers(code, typ, length);
        response.append_string(body);
        response
    }

    /// A response with a body of raw bytes.
    pub fn create_from_buf(code: Code, typ: Type, body: Vec<u8>) -> (response: Response)
        ensures
            response@ == file(code, typ, body@),
    {
        let mut response = Response::create_headers(code, typ, body.len());
        append_bytes(&mut response.message, body.as_slice());
        response
    }

    /// The answer sent on behalf of a handler that gave none.
    pub fn create_500() -> (response: Response)
        ensures
            response@ == server_error(),
    {
        Response::create(Code::Code500, Type::TextHtml, "500 Internal Server Error".to_owned())
    }

    /// The answer to a request that could not be understood.
    pub fn create_400() -> (response: Response)
        ensures
            response@ == bad_request(),
    {
        Response::create(Code::Code400, Type::TextHtml, "400 Bad Request".to_owned())
    }
}

} // verus!
