use vstd::prelude::*;
use crate::request::RawHeader;
use crate::request::RawRequest;
use crate::request::RawRequestView;

verus! {

/// How far the parser came with the bytes of a request head.
pub enum ParseStatus {
    /// The head is whole. It ends at the given offset, where the body starts.
    Complete(usize, RawRequest),
    /// Nothing is wrong so far, but the head has not ended yet.
    Partial,
    /// The bytes are not the head of a request.
    Malformed,
}

/// What a `ParseStatus` holds.
pub enum ParseStatusView {
    Complete(nat, RawRequestView),
    Partial,
    Malformed,
}

impl View for ParseStatus {
    type V = ParseStatusView;

    open spec fn view(&self) -> ParseStatusView {
        match self {
            ParseStatus::Complete(consumed, raw) => ParseStatusView::Complete(
                *consumed as nat,
                raw@,
            ),
            ParseStatus::Partial => ParseStatusView::Partial,
            ParseStatus::Malformed => ParseStatusView::Malformed,
        }
    }
}

/// What the `httparse` crate makes of the bytes of a request head, with room
/// for a hundred headers.
pub uninterp spec fn head_outcome(buf: Seq<u8>) -> ParseStatusView;

/// `httparse::Request::parse` on a fresh request with room for a hundred
/// headers. The outcome is a function of the bytes alone; an error of any
/// kind is reported as `Malformed`.
#[verifier::external_body]
pub(crate) fn parse_head(buf: &[u8]) -> (status: ParseStatus)
    ensures
        status@ == head_outcome(buf@),
{
    let mut headers = [httparse::EMPTY_HEADER; 100];
    let mut req = httparse::Request::new(&mut headers);
    match req.parse(buf) {
        Ok(httparse::Status::Complete(n)) => ParseStatus::Complete(n, RawRequest {
            method: req.method.map(|m| m.to_owned()),
            path: req.path.map(|p| p.to_owned()),
            version: req.version,
            headers: req.headers.iter().map(|h| RawHeader { name: h.name.to_owned(), value: h.value.to_vec() }).collect(),
        }),
        Ok(httparse::Status::Partial) => ParseStatus::Partial,
        Err(_) => ParseStatus::Malformed,
    }
}

} // verus!
