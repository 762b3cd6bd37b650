use vstd::prelude::*;
use vstd::slice::slice_to_vec;
use vstd::string::StringExecFns;
use vstd::utf8::encode_utf8;
use vstd::utf8::valid_utf8;
use crate::response::server_error;
use crate::response::Response;
use crate::server::MioMessage;
use crate::text::eq_ignore_case;
use crate::text::bytes_eq;
use crate::text::is_utf8;
use crate::text::number_usize;
use crate::text::parse_usize;
use crate::text::same_name;
use crate::text::trim;
use crate::text::trimmed;
use crate::token_gen::ConnectionId;

verus! {

/// One header as the parser found it: the name as text, the value as bytes.
pub struct RawHeader {
    pub name: String,
    pub value: Vec<u8>,
}

/// The head of a request as the parser found it. A part is missing while
/// the parser has not reached it.
pub struct RawRequest {
    pub method: Option<String>,
    pub path: Option<String>,
    pub version: Option<u8>,
    pub headers: Vec<RawHeader>,
}

/// What a `RawRequest` holds.
pub struct RawRequestView {
    pub method: Option<Seq<char>>,
    pub path: Option<Seq<char>>,
    pub version: Option<u8>,
    pub headers: Seq<(Seq<char>, Seq<u8>)>,
}

impl View for RawHeader {
    type V = (Seq<char>, Seq<u8>);

    open spec fn view(&self) -> (Seq<char>, Seq<u8>) {
        (self.name@, self.value@)
    }
}

impl View for RawRequest {
    type V = RawRequestView;

    open spec fn view(&self) -> RawRequestView {
        RawRequestView {
            method: match self.method {
                Some(m) => Some(m@),
                None => None,
            },
            path: match self.path {
                Some(p) => Some(p@),
                None => None,
            },
            version: self.version,
            headers: self.headers@.map_values(|h: RawHeader| h@),
        }
    }
}

/// Why the head of a request was not taken in.
#[derive(Debug)]
pub enum RequestError {
    /// The method, the path or the version is missing.
    Incomplete,
    /// The value of the named header is not valid UTF-8.
    HeaderNotText(String),
    /// The named header occurs a second time.
    DuplicateHeader(String),
}

/// What a `RequestError` holds.
pub enum RequestErrorView {
    Incomplete,
    HeaderNotText(Seq<char>),
    DuplicateHeader(Seq<char>),
}

impl View for RequestError {
    type V = RequestErrorView;

    open spec fn view(&self) -> RequestErrorView {
        match self {
            RequestError::Incomplete => RequestErrorView::Incomplete,
            RequestError::HeaderNotText(name) => RequestErrorView::HeaderNotText(name@),
            RequestError::DuplicateHeader(name) => RequestErrorView::DuplicateHeader(name@),
        }
    }
}

impl RequestErrorView {
    /// The error in words.
    pub open spec fn text(self) -> Seq<char> {
        match self {
            RequestErrorView::Incomplete => "request line incomplete"@,
            RequestErrorView::HeaderNotText(name) => "header "@ + name + ", error utf8 sequence"@,
            RequestErrorView::DuplicateHeader(name) => "double header: "@ + name,
        }
    }
}

impl RequestError {
    /// The error in words, for the log.
    pub fn describe(&self) -> (text: String)
        ensures
            text@ == self@.text(),
    {
        match self {
            RequestError::Incomplete => "request line incomplete".to_owned(),
            RequestError::HeaderNotText(name) => "header ".to_owned().concat(name.as_str()).concat(
                ", error utf8 sequence",
            ),
            RequestError::DuplicateHeader(name) => "double header: ".to_owned().concat(
                name.as_str(),
            ),
        }
    }
}

/// The headers of a request: names and values as bytes, in the order in
/// which they came.
pub type Headers = Seq<(Seq<u8>, Seq<u8>)>;

/// No header name occurs twice, whatever the case of its letters.
pub open spec fn distinct_names(headers: Headers) -> bool {
    forall|i: int, j: int|
        0 <= i < j < headers.len() ==> !same_name(
            (#[trigger] headers[i]).0,
            (#[trigger] headers[j]).0,
        )
}

/// Whether some header has the given name.
pub open spec fn has_name(headers: Headers, name: Seq<u8>) -> bool {
    exists|i: int| 0 <= i < headers.len() && same_name((#[trigger] headers[i]).0, name)
}

/// The value of the first header with the given name.
pub open spec fn lookup(headers: Headers, name: Seq<u8>) -> Option<Seq<u8>>
    decreases headers.len(),
{
    if headers.len() == 0 {
        None
    } else if same_name(headers[0].0, name) {
        Some(headers[0].1)
    } else {
        lookup(headers.drop_first(), name)
    }
}

/// The headers of a parsed head as they are kept: the names as bytes.
pub open spec fn kept_headers(raw: Seq<(Seq<char>, Seq<u8>)>) -> Headers {
    raw.map_values(|h: (Seq<char>, Seq<u8>)| (encode_utf8(h.0), h.1))
}

/// The header at `i` cannot be taken in: its value is not text, or its name
/// has occurred before.
pub open spec fn fault_at(raw: Seq<(Seq<char>, Seq<u8>)>, i: int) -> bool {
    ||| !valid_utf8(raw[i].1)
    ||| has_name(kept_headers(raw.take(i)), encode_utf8(raw[i].0))
}

/// The index of the first header from `from` on that cannot be taken in, or
/// the number of headers if there is none.
pub open spec fn first_fault(raw: Seq<(Seq<char>, Seq<u8>)>, from: int) -> int
    decreases raw.len() - from,
{
    if from < 0 || from >= raw.len() {
        raw.len() as int
    } else if fault_at(raw, from) {
        from
    } else {
        first_fault(raw, from + 1)
    }
}

impl RawRequestView {
    /// Whether the request line is whole.
    pub open spec fn whole(self) -> bool {
        self.method is Some && self.path is Some && self.version is Some
    }

    /// What becomes of this head: the request it describes, or the first
    /// thing wrong with it. The request line is looked at first, then the
    /// headers in their order; of one header, the value before the name.
    pub open spec fn admitted(self) -> Result<PreRequestView, RequestErrorView> {
        let fault = first_fault(self.headers, 0);
        if !self.whole() {
            Err(RequestErrorView::Incomplete)
        } else if fault < self.headers.len() {
            if !valid_utf8(self.headers[fault].1) {
                Err(RequestErrorView::HeaderNotText(self.headers[fault].0))
            } else {
                Err(RequestErrorView::DuplicateHeader(self.headers[fault].0))
            }
        } else {
            Ok(
                PreRequestView {
                    method: self.method->0,
                    path: self.path->0,
                    version: self.version->0,
                    headers: kept_headers(self.headers),
                },
            )
        }
    }
}

/// The head of a request that has been taken in.
pub struct PreRequest {
    method: String,
    path: String,
    version: u8,
    headers: Vec<(Vec<u8>, Vec<u8>)>,
}

/// What a `PreRequest` holds.
pub struct PreRequestView {
    pub method: Seq<char>,
    pub path: Seq<char>,
    pub version: u8,
    pub headers: Headers,
}

impl PreRequestView {
    /// Whether the request is a POST.
    pub open spec fn is_post(self) -> bool {
        self.method == "POST"@
    }

    /// Whether the named header is there with exactly this value, the white
    /// space around `value` not counted.
    pub open spec fn header_is(self, name: Seq<char>, value: Seq<char>) -> bool {
        lookup(self.headers, encode_utf8(name)) == Some(encode_utf8(trimmed(value)))
    }

    /// The number that the named header gives, if the header is there and
    /// its value is a decimal number that fits a `usize`.
    pub open spec fn header_number(self, name: Seq<char>) -> Option<usize> {
        match lookup(self.headers, encode_utf8(name)) {
            Some(value) => number_usize(value),
            None => None,
        }
    }
}

/// The headers as a sequence of pairs of byte strings.
pub open spec fn pairs(headers: Seq<(Vec<u8>, Vec<u8>)>) -> Headers {
    headers.map_values(|h: (Vec<u8>, Vec<u8>)| (h.0@, h.1@))
}

/// Looking a name up skips the headers before the first that has it.
proof fn lemma_lookup_skip(headers: Headers, name: Seq<u8>, k: int)
    requires
        0 <= k <= headers.len(),
        forall|i: int| 0 <= i < k ==> !same_name((#[trigger] headers[i]).0, name),
    ensures
        lookup(headers, name) == lookup(headers.skip(k), name),
    decreases k,
{
    if k == 0 {
        assert(headers.skip(0) =~= headers);
    } else {
        lemma_lookup_skip(headers, name, k - 1);
        let rest = headers.skip(k - 1);
        assert(rest.drop_first() =~= headers.skip(k));
    }
}

/// Where no header is at fault before `to`, the first fault from `from` on
/// is the first from `to` on.
proof fn lemma_first_fault_from(raw: Seq<(Seq<char>, Seq<u8>)>, from: int, to: int)
    requires
        0 <= from <= to <= raw.len(),
        forall|i: int| from <= i < to ==> !fault_at(raw, i),
    ensures
        first_fault(raw, from) == first_fault(raw, to),
    decreases to - from,
{
    if from < to {
        lemma_first_fault_from(raw, from + 1, to);
    }
}

impl View for PreRequest {
    type V = PreRequestView;

    closed spec fn view(&self) -> PreRequestView {
        PreRequestView {
            method: self.method@,
            path: self.path@,
            version: self.version,
            headers: pairs(self.headers@),
        }
    }
}

/// Whether one of the kept headers has the given name.
fn holds_name(headers: &Vec<(Vec<u8>, Vec<u8>)>, name: &[u8]) -> (found: bool)
    ensures
        found == has_name(pairs(headers@), name@),
{
    let mut i: usize = 0;
    while i < headers.len()
        invariant
            i <= headers@.len(),
            forall|j: int| 0 <= j < i ==> !same_name((#[trigger] pairs(headers@)[j]).0, name@),
        decreases headers@.len() - i,
    {
        if eq_ignore_case(headers[i].0.as_slice(), name) {
            assert(same_name(pairs(headers@)[i as int].0, name@));
            return true;
        }
        i = i + 1;
    }
    false
}

impl PreRequest {
    #[verifier::type_invariant]
    spec fn well_formed(self) -> bool {
        distinct_names(pairs(self.headers@))
    }

    /// Takes in the head of a request as the parser found it. The head is
    /// refused when its request line is not whole, when a header value is
    /// not valid UTF-8, and when a header name occurs twice.
    pub fn new(req: RawRequest) -> (made: Result<PreRequest, RequestError>)
        ensures
            match (made, req@.admitted()) {
                (Ok(request), Ok(view)) => request@ == view,
                (Err(error), Err(view)) => error@ == view,
                _ => false,
            },
            made matches Ok(request) ==> distinct_names(request@.headers),
    {
        let RawRequest { method, path, version, headers: raw } = req;
        let (method, path, version) = match (method, path, version) {
            (Some(method), Some(path), Some(version)) => (method, path, version),
            _ => {
                return Err(RequestError::Incomplete);
            },
        };
        let ghost all = req@.headers;
        let mut headers: Vec<(Vec<u8>, Vec<u8>)> = Vec::new();
        let mut i: usize = 0;
        while i < raw.len()
            invariant
                i <= raw@.len(),
                all == raw@.map_values(|h: RawHeader| h@),
                all == req@.headers,
                req@.whole(),
                pairs(headers@) == kept_headers(all.take(i as int)),
                forall|j: int| 0 <= j < i ==> !fault_at(all, j),
                distinct_names(pairs(headers@)),
            decreases raw@.len() - i,
        {
            let header = &raw[i];
            let name = header.name.as_str().as_bytes();
            if !is_utf8(header.value.as_slice()) {
                proof {
                    lemma_first_fault_from(all, 0, i as int);
                }
                return Err(RequestError::HeaderNotText(header.name.clone()));
            }
            if holds_name(&headers, name) {
                proof {
                    lemma_first_fault_from(all, 0, i as int);
                }
                return Err(RequestError::DuplicateHeader(header.name.clone()));
            }
            let ghost before = pairs(headers@);
            headers.push((slice_to_vec(name), slice_to_vec(header.value.as_slice())));
            proof {
                let now = pairs(headers@);
                let entry = (encode_utf8(all[i as int].0), all[i as int].1);
                assert(kept_headers(all.take(i + 1)) =~= kept_headers(all.take(i as int)).push(
                    entry,
                ));
                assert forall|a: int, b: int| 0 <= a < b < now.len() implies !same_name(
                    (#[trigger] now[a]).0,
                    (#[trigger] now[b]).0,
                ) by {
                    assert(before[a] == now[a]);
                    if b < now.len() - 1 {
                        assert(before[b] == now[b]);
                    }
                }
            }
            i = i + 1;
        }
        proof {
            assert(all.take(i as int) =~= all);
            lemma_first_fault_from(all, 0, i as int);
        }
        Ok(PreRequest { method, path, version, headers })
    }

    /// The value kept for a header name.
    fn find(&self, name: &[u8]) -> (found: Option<&Vec<u8>>)
        ensures
            match (found, lookup(self@.headers, name@)) {
                (Some(value), Some(bytes)) => value@ == bytes,
                (None, None) => true,
                _ => false,
            },
    {
        let ghost all = pairs(self.headers@);
        let mut i: usize = 0;
        while i < self.headers.len()
            invariant
                i <= self.headers@.len(),
                all == pairs(self.headers@),
                forall|j: int| 0 <= j < i ==> !same_name((#[trigger] all[j]).0, name@),
            decreases self.headers@.len() - i,
        {
            if eq_ignore_case(self.headers[i].0.as_slice(), name) {
                proof {
                    lemma_lookup_skip(all, name@, i as int);
                }
                return Some(&self.headers[i].1);
            }
            i = i + 1;
        }
        proof {
            lemma_lookup_skip(all, name@, i as int);
        }
        None
    }

    /// Whether the named header is there with exactly this value. The name
    /// is matched without regard to case; white space around `value` is not
    /// counted.
    pub fn is_header_set(&self, name: &str, value: &str) -> (set: bool)
        ensures
            set == self@.header_is(name@, value@),
    {
        match self.find(name.as_bytes()) {
            Some(found) => bytes_eq(found.as_slice(), trim(value).as_bytes()),
            None => false,
        }
    }

    /// The path of the request.
    pub fn path(&self) -> (path: &String)
        ensures
            path@ == self@.path,
    {
        &self.path
    }

    /// Whether the request is a POST.
    pub fn is_post(&self) -> (post: bool)
        ensures
            post == self@.is_post(),
    {
        self.method == "POST".to_owned()
    }

    /// The method of the request.
    pub fn method(&self) -> (method: &String)
        ensures
            method@ == self@.method,
    {
        &self.method
    }

    /// The minor version of HTTP/1 that the request was made in.
    pub fn version(&self) -> (version: u8)
        ensures
            version == self@.version,
    {
        self.version
    }

    /// The number that the named header gives, if it gives one.
    pub fn get_header(&self, header: String) -> (number: Option<usize>)
        ensures
            number == self@.header_number(header@),
    {
        match self.find(header.as_str().as_bytes()) {
            Some(value) => parse_usize(value.as_slice()),
            None => None,
        }
    }
}

/// A request in the hands of the application: the head that was taken in,
/// and the connection that waits for the answer. It is used up by the one
/// message that answers it.
pub struct Request {
    pre_request: PreRequest,
    token: ConnectionId,
}

impl Request {
    /// The head of the request.
    pub closed spec fn head(self) -> PreRequestView {
        self.pre_request@
    }

    /// The connection that waits for the answer.
    pub closed spec fn token(self) -> ConnectionId {
        self.token
    }

    /// The id of the connection that waits for the answer.
    pub fn connection(&self) -> (token: ConnectionId)
        ensures
            token == self.token(),
    {
        self.token
    }

    /// The path of the request.
    pub fn path(&self) -> (path: &String)
        ensures
            path@ == self.head().path,
    {
        self.pre_request.path()
    }

    /// The minor version of HTTP/1 that the request was made in.
    pub fn version(&self) -> (version: u8)
        ensures
            version == self.head().version,
    {
        self.pre_request.version()
    }

    /// The method of the request.
    pub fn method(&self) -> (method: &String)
        ensures
            method@ == self.head().method,
    {
        self.pre_request.method()
    }

    /// Whether the request is a POST.
    pub fn is_post(&self) -> (post: bool)
        ensures
            post == self.head().is_post(),
    {
        self.pre_request.is_post()
    }

    /// The message that answers the request with `response`.
    pub fn send<P>(self, response: Response) -> (message: MioMessage<P>)
        ensures
            message matches MioMessage::Response(token, sent) && token == self.token() && sent
                == response,
    {
        MioMessage::Response(self.token, response)
    }

    /// The message that answers a request which the application let go
    /// without an answer: `500 Internal Server Error`.
    pub fn abandon<P>(self) -> (message: MioMessage<P>)
        ensures
            message matches MioMessage::Response(token, sent) && token == self.token() && sent@
                == server_error(),
    {
        MioMessage::Response(self.token, Response::create_500())
    }
}

impl PreRequest {
    /// The request for the application, bound to the connection that it
    /// came on.
    pub fn bind(self, token: ConnectionId) -> (request: Request)
        ensures
            request.head() == self@,
            request.token() == token,
    {
        Request { pre_request: self, token }
    }
}

} // verus!
