//! Responses and their wire form: a status, a body kind, and a body, written
//! out as a status line, the two body headers when a body kind is set, a blank
//! line, and the raw body bytes.

use vstd::prelude::*;
use crate::ascii::clen_field;
use crate::ascii::crlf;
use crate::ascii::ctype_field;
use crate::ascii::ctype_octet;
use crate::ascii::ctype_text;
use crate::ascii::http_prefix;
use crate::ascii::lit_clen_field;
use crate::ascii::lit_crlf;
use crate::ascii::lit_ctype_field;
use crate::ascii::lit_ctype_octet;
use crate::ascii::lit_ctype_text;
use crate::ascii::lit_http_prefix;
use crate::ascii::lit_reason_bad_request;
use crate::ascii::lit_reason_created;
use crate::ascii::lit_reason_method_not_allowed;
use crate::ascii::lit_reason_not_found;
use crate::ascii::lit_reason_okay;
use crate::ascii::lit_reason_server_error;
use crate::ascii::push_all;
use crate::ascii::reason_bad_request;
use crate::ascii::reason_created;
use crate::ascii::reason_method_not_allowed;
use crate::ascii::reason_not_found;
use crate::ascii::reason_okay;
use crate::ascii::reason_server_error;

verus! {

/// The status codes the pipeline issues.
#[derive(Clone, Copy, Debug, PartialEq, Eq, Structural)]
pub enum StatusCode {
    Okay,
    Created,
    BadRequest,
    NotFound,
    MethodNotAllowed,
    ServerError,
}

/// The numeric code of a status.
pub open spec fn code_of(s: StatusCode) -> int {
    match s {
        StatusCode::Okay => 200,
        StatusCode::Created => 201,
        StatusCode::BadRequest => 400,
        StatusCode::NotFound => 404,
        StatusCode::MethodNotAllowed => 405,
        StatusCode::ServerError => 500,
    }
}

/// The reason phrase of a status.
pub open spec fn reason_of(s: StatusCode) -> Seq<u8> {
    match s {
        StatusCode::Okay => reason_okay(),
        StatusCode::Created => reason_created(),
        StatusCode::BadRequest => reason_bad_request(),
        StatusCode::NotFound => reason_not_found(),
        StatusCode::MethodNotAllowed => reason_method_not_allowed(),
        StatusCode::ServerError => reason_server_error(),
    }
}

/// What kind of body a response carries, which fixes its `Content-Type`.
/// A response without one emits neither body header.
#[derive(Clone, Copy, Debug, PartialEq, Eq, Structural)]
pub enum BodyKind {
    Absent,
    PlainText,
    OctetStream,
}

/// The `Content-Type` value of a body kind that has one.
pub open spec fn ctype_of(k: BodyKind) -> Seq<u8> {
    match k {
        BodyKind::Absent => Seq::empty(),
        BodyKind::PlainText => ctype_text(),
        BodyKind::OctetStream => ctype_octet(),
    }
}

/// A response about to be written: status, body kind, body bytes.
pub struct Response {
    pub status: StatusCode,
    pub kind: BodyKind,
    pub body: Vec<u8>,
}

/// The mathematical shape of a response.
pub struct ResponseModel {
    pub status: StatusCode,
    pub kind: BodyKind,
    pub body: Seq<u8>,
}

impl View for Response {
    type V = ResponseModel;

    open spec fn view(&self) -> ResponseModel {
        ResponseModel { status: self.status, kind: self.kind, body: self.body@ }
    }
}

/// A well-formed response carries no body bytes when its body kind is absent.
pub open spec fn response_wf(r: ResponseModel) -> bool {
    r.kind is Absent ==> r.body.len() == 0
}

/// The decimal digits of `n`, most significant first.
pub open spec fn dec_of(n: nat) -> Seq<u8>
    decreases n,
{
    if n < 10 {
        seq![(48 + n) as u8]
    } else {
        dec_of(n / 10).push((48 + n % 10) as u8)
    }
}

/// The status line: `HTTP/1.1 {code} {reason}\r\n`.
pub open spec fn status_line_of(s: StatusCode) -> Seq<u8> {
    http_prefix() + dec_of(code_of(s) as nat) + seq![32u8] + reason_of(s) + crlf()
}

/// The header block: `Content-Type` then `Content-Length` when the response
/// carries a body kind, nothing otherwise.
pub open spec fn header_block_of(r: ResponseModel) -> Seq<u8> {
    if r.kind is Absent {
        Seq::empty()
    } else {
        ctype_field() + ctype_of(r.kind) + crlf() + clen_field() + dec_of(r.body.len()) + crlf()
    }
}

/// The full wire form of a response.
pub open spec fn wire_of(r: ResponseModel) -> Seq<u8> {
    status_line_of(r.status) + header_block_of(r) + crlf() + r.body
}

/// Appends the decimal digits of `n`.
fn push_decimal(v: &mut Vec<u8>, n: usize)
    ensures
        final(v)@ == old(v)@ + dec_of(n as nat),
    decreases n,
{
    if n < 10 {
        v.push(48 + n as u8);
        proof {
            assert(v@ =~= old(v)@ + dec_of(n as nat));
        }
    } else {
        push_decimal(v, n / 10);
        v.push(48 + (n % 10) as u8);
        proof {
            assert(v@ =~= old(v)@ + dec_of(n as nat));
        }
    }
}

/// Serializes a response into its wire form.
pub fn serialize_response(r: &Response) -> (out: Vec<u8>)
    ensures
        out@ == wire_of(r@),
{
    let mut out = lit_http_prefix();
    let code: usize = match r.status {
        StatusCode::Okay => 200,
        StatusCode::Created => 201,
        StatusCode::BadRequest => 400,
        StatusCode::NotFound => 404,
        StatusCode::MethodNotAllowed => 405,
        StatusCode::ServerError => 500,
    };
    proof {
        assert(code as int == code_of(r.status));
    }
    push_decimal(&mut out, code);
    out.push(32);
    let reason = match r.status {
        StatusCode::Okay => lit_reason_okay(),
        StatusCode::Created => lit_reason_created(),
        StatusCode::BadRequest => lit_reason_bad_request(),
        StatusCode::NotFound => lit_reason_not_found(),
        StatusCode::MethodNotAllowed => lit_reason_method_not_allowed(),
        StatusCode::ServerError => lit_reason_server_error(),
    };
    push_all(&mut out, &reason);
    let line_end = lit_crlf();
    push_all(&mut out, &line_end);
    proof {
        assert(out@ =~= status_line_of(r.status));
    }
    let absent = match r.kind {
        BodyKind::Absent => true,
        _ => false,
    };
    if !absent {
        let field = lit_ctype_field();
        push_all(&mut out, &field);
        let ctype = match r.kind {
            BodyKind::PlainText => lit_ctype_text(),
            _ => lit_ctype_octet(),
        };
        push_all(&mut out, &ctype);
        push_all(&mut out, &line_end);
        let field_len = lit_clen_field();
        push_all(&mut out, &field_len);
        push_decimal(&mut out, r.body.len());
        push_all(&mut out, &line_end);
        proof {
            assert(out@ =~= status_line_of(r.status) + header_block_of(r@));
        }
    } else {
        proof {
            assert(out@ =~= status_line_of(r.status) + header_block_of(r@));
        }
    }
    push_all(&mut out, &line_end);
    push_all(&mut out, &r.body);
    proof {
        assert(out@ =~= wire_of(r@));
    }
    out
}

} // verus!
