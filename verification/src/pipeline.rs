//! The per-connection pipeline: from a raw request buffer to either a finished
//! response or a filesystem action. The caller performs the action against the
//! serving directory and hands the outcome back to finish the response.

use vstd::prelude::*;
use crate::parse::body_of;
use crate::parse::body_start;
use crate::parse::content_length_of;
use crate::parse::extract_content_length;
use crate::parse::extract_user_agent;
use crate::parse::first_line;
use crate::parse::first_line_of;
use crate::parse::split_tokens;
use crate::parse::tokens_of;
use crate::parse::truncate_body;
use crate::parse::truncated;
use crate::parse::user_agent_of;
use crate::parse::views_of;
use crate::ascii::copy_range;
use crate::response::BodyKind;
use crate::response::Response;
use crate::response::ResponseModel;
use crate::response::StatusCode;
use crate::router::route;
use crate::router::route_of;
use crate::router::Route;
use crate::router::RouteModel;

verus! {

/// What one request asks of its connection: deliver a finished response, read
/// or write a file under the serving directory before answering, or drop the
/// connection without an answer. The file actions carry the name after
/// `/files/`; the write also carries the exact bytes to store.
pub enum Action {
    Deliver(Response),
    ReadFile(Vec<u8>),
    WriteFile(Vec<u8>, Vec<u8>),
    Close,
}

/// The mathematical shape of an action.
pub enum ActionModel {
    Deliver(ResponseModel),
    ReadFile(Seq<u8>),
    WriteFile(Seq<u8>, Seq<u8>),
    Close,
}

impl View for Action {
    type V = ActionModel;

    open spec fn view(&self) -> ActionModel {
        match self {
            Action::Deliver(r) => ActionModel::Deliver(r@),
            Action::ReadFile(name) => ActionModel::ReadFile(name@),
            Action::WriteFile(name, data) => ActionModel::WriteFile(name@, data@),
            Action::Close => ActionModel::Close,
        }
    }
}

/// A response of the given status with no body and no body headers.
pub open spec fn bare_response(status: StatusCode) -> ResponseModel {
    ResponseModel { status, kind: BodyKind::Absent, body: Seq::empty() }
}

/// A 200 response with a plain-text body.
pub open spec fn text_response(body: Seq<u8>) -> ResponseModel {
    ResponseModel { status: StatusCode::Okay, kind: BodyKind::PlainText, body }
}

/// The whitespace-separated tokens of the request line.
pub open spec fn request_tokens(buf: Seq<u8>) -> Seq<Seq<u8>> {
    tokens_of(first_line_of(buf))
}

/// What the pipeline does with a request buffer. A request line of fewer than
/// two tokens is answered 400 at once; otherwise the first token is the method
/// and the second the path, and the route decides. An upload whose body holds
/// fewer bytes than its declared content length drops the connection.
pub open spec fn plan_of(buf: Seq<u8>) -> ActionModel {
    let toks = request_tokens(buf);
    if toks.len() < 2 {
        ActionModel::Deliver(bare_response(StatusCode::BadRequest))
    } else {
        match route_of(toks[0], toks[1]) {
            RouteModel::FileGet(name) => ActionModel::ReadFile(name),
            RouteModel::UserAgent => ActionModel::Deliver(text_response(user_agent_of(buf))),
            RouteModel::Echo(text) => ActionModel::Deliver(text_response(text)),
            RouteModel::Root => ActionModel::Deliver(bare_response(StatusCode::Okay)),
            RouteModel::NotFound => ActionModel::Deliver(bare_response(StatusCode::NotFound)),
            RouteModel::FilePost(name) => match truncated(body_of(buf), content_length_of(buf)) {
                Some(data) => ActionModel::WriteFile(name, data),
                None => ActionModel::Close,
            },
            RouteModel::MethodNotAllowed => ActionModel::Deliver(
                bare_response(StatusCode::MethodNotAllowed),
            ),
        }
    }
}

/// Runs the parser and the router over a request buffer and decides what the
/// connection does next.
pub fn plan_request(buf: &Vec<u8>) -> (a: Action)
    ensures
        a@ == plan_of(buf@),
{
    let line = first_line(buf);
    let toks = split_tokens(&line);
    if toks.len() < 2 {
        return Action::Deliver(
            Response { status: StatusCode::BadRequest, kind: BodyKind::Absent, body: Vec::new() },
        );
    }
    proof {
        assert(views_of(toks@)[0] == toks@[0]@);
        assert(views_of(toks@)[1] == toks@[1]@);
    }
    match route(&toks[0], &toks[1]) {
        Route::FileGet(name) => Action::ReadFile(name),
        Route::UserAgent => Action::Deliver(
            Response {
                status: StatusCode::Okay,
                kind: BodyKind::PlainText,
                body: extract_user_agent(buf),
            },
        ),
        Route::Echo(text) => Action::Deliver(
            Response { status: StatusCode::Okay, kind: BodyKind::PlainText, body: text },
        ),
        Route::Root => Action::Deliver(
            Response { status: StatusCode::Okay, kind: BodyKind::Absent, body: Vec::new() },
        ),
        Route::NotFound => Action::Deliver(
            Response { status: StatusCode::NotFound, kind: BodyKind::Absent, body: Vec::new() },
        ),
        Route::FilePost(name) => {
            let n = extract_content_length(buf);
            let start = body_start(buf);
            let body = copy_range(buf, start, buf.len());
            proof {
                assert(body@ == body_of(buf@));
            }
            match truncate_body(&body, n) {
                Some(data) => Action::WriteFile(name, data),
                None => Action::Close,
            }
        },
        Route::MethodNotAllowed => Action::Deliver(
            Response {
                status: StatusCode::MethodNotAllowed,
                kind: BodyKind::Absent,
                body: Vec::new(),
            },
        ),
    }
}

/// The response a file read decides: the contents as a 200 octet-stream
/// response when the file was there, a bare 404 when it was not.
pub open spec fn file_get_of(found: Option<Seq<u8>>) -> ResponseModel {
    match found {
        Some(contents) => ResponseModel {
            status: StatusCode::Okay,
            kind: BodyKind::OctetStream,
            body: contents,
        },
        None => bare_response(StatusCode::NotFound),
    }
}

/// Finishes a `ReadFile` action once the caller has looked the file up:
/// `contents` is the file's bytes, or nothing when it could not be read.
pub fn file_get_response(contents: Option<Vec<u8>>) -> (r: Response)
    ensures
        contents matches Some(c) ==> r@ == file_get_of(Some(c@)),
        contents is None ==> r@ == file_get_of(None),
{
    match contents {
        Some(c) => Response { status: StatusCode::Okay, kind: BodyKind::OctetStream, body: c },
        None => Response { status: StatusCode::NotFound, kind: BodyKind::Absent, body: Vec::new() },
    }
}

/// The response a file write decides: a bare 201 on success, a bare 500 on a
/// filesystem error.
pub open spec fn file_post_of(ok: bool) -> ResponseModel {
    if ok {
        bare_response(StatusCode::Created)
    } else {
        bare_response(StatusCode::ServerError)
    }
}

/// Finishes a `WriteFile` action once the caller has attempted the write.
pub fn file_post_response(ok: bool) -> (r: Response)
    ensures
        r@ == file_post_of(ok),
{
    if ok {
        Response { status: StatusCode::Created, kind: BodyKind::Absent, body: Vec::new() }
    } else {
        Response { status: StatusCode::ServerError, kind: BodyKind::Absent, body: Vec::new() }
    }
}

} // verus!
