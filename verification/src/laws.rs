//! The pipeline's governing properties, proved once and for all inputs: what
//! the echo and user-agent routes answer, what a stored file reads back as,
//! and which requests are turned away with 400 or 405.

use vstd::prelude::*;
use crate::ascii::clen_field;
use crate::ascii::crlf;
use crate::ascii::ctype_field;
use crate::ascii::ctype_text;
use crate::ascii::default_ua;
use crate::ascii::echo_prefix;
use crate::ascii::files_prefix;
use crate::ascii::method_get;
use crate::ascii::method_post;
use crate::ascii::starts_with;
use crate::ascii::ua_label;
use crate::ascii::user_agent_path;
use crate::parse::body_of;
use crate::parse::content_length_of;
use crate::parse::trim_nuls;
use crate::parse::truncated;
use crate::parse::ua_of_lines;
use crate::parse::ua_value;
use crate::parse::user_agent_of;
use crate::pipeline::bare_response;
use crate::pipeline::file_get_of;
use crate::pipeline::file_post_of;
use crate::pipeline::plan_of;
use crate::pipeline::request_tokens;
use crate::pipeline::text_response;
use crate::pipeline::ActionModel;
use crate::response::dec_of;
use crate::response::response_wf;
use crate::response::status_line_of;
use crate::response::wire_of;
use crate::response::BodyKind;
use crate::response::ResponseModel;
use crate::response::StatusCode;
use crate::router::route_of;
use crate::router::RouteModel;

verus! {

/// A GET request whose path is `/echo/` followed by `text` is answered with a
/// plain-text 200 response whose body is exactly `text` — the empty text
/// included — and whose `Content-Length` field carries exactly `text`'s
/// length.
pub proof fn lemma_echo_reply(buf: Seq<u8>, text: Seq<u8>)
    requires
        request_tokens(buf).len() >= 2,
        request_tokens(buf)[0] == method_get(),
        request_tokens(buf)[1] == echo_prefix() + text,
    ensures
        plan_of(buf) == ActionModel::Deliver(text_response(text)),
        wire_of(text_response(text)) == status_line_of(StatusCode::Okay) + ctype_field()
            + ctype_text() + crlf() + clen_field() + dec_of(text.len()) + crlf() + crlf() + text,
{
    let path = request_tokens(buf)[1];
    if starts_with(path, files_prefix()) {
        assert(path.take(files_prefix().len() as int)[1] == path[1]);
        assert(files_prefix()[1] == 102);
        assert(path[1] == echo_prefix()[1]);
        assert(false);
    }
    if path == user_agent_path() {
        assert(path[1] == user_agent_path()[1]);
        assert(path[1] == echo_prefix()[1]);
        assert(false);
    }
    assert(path.take(echo_prefix().len() as int) =~= echo_prefix());
    assert(path.skip(echo_prefix().len() as int) =~= text);
    assert(route_of(method_get(), path) == RouteModel::Echo(text));
    assert(wire_of(text_response(text)) =~= status_line_of(StatusCode::Okay) + ctype_field()
        + ctype_text() + crlf() + clen_field() + dec_of(text.len()) + crlf() + crlf() + text);
}

/// A GET request for `/user-agent` is answered with a plain-text 200 response
/// whose body is the request's user-agent value.
pub proof fn lemma_user_agent_reply(buf: Seq<u8>)
    requires
        request_tokens(buf).len() >= 2,
        request_tokens(buf)[0] == method_get(),
        request_tokens(buf)[1] == user_agent_path(),
    ensures
        plan_of(buf) == ActionModel::Deliver(text_response(user_agent_of(buf))),
{
    let path = request_tokens(buf)[1];
    if starts_with(path, files_prefix()) {
        assert(path.take(files_prefix().len() as int)[1] == path[1]);
        assert(files_prefix()[1] == 102);
        assert(path[1] == user_agent_path()[1]);
        assert(false);
    }
}

/// When the first header line bearing the `User-Agent` label reads
/// `User-Agent: ` followed by `value`, the user-agent of those lines is
/// exactly `value`.
pub proof fn lemma_user_agent_header_value(ls: Seq<Seq<u8>>, i: int, value: Seq<u8>)
    requires
        0 <= i < ls.len(),
        forall|k: int| 0 <= k < i ==> !starts_with(ls[k], ua_label()),
        ls[i] == ua_label() + seq![32u8] + value,
    ensures
        ua_of_lines(ls) == value,
    decreases i,
{
    let line = ls[i];
    assert(line.take(ua_label().len() as int) =~= ua_label());
    assert(line.take(ua_label().len() as int + 1) =~= ua_label().push(32));
    assert(starts_with(line, ua_label()));
    assert(starts_with(line, ua_label().push(32)));
    assert(line.skip(ua_label().len() as int + 1) =~= value);
    assert(ua_value(line) == value);
    if i > 0 {
        assert(forall|k: int| 0 <= k < i - 1 ==> ls.drop_first()[k] == ls[k + 1]);
        lemma_user_agent_header_value(ls.drop_first(), i - 1, value);
    }
}

/// When no header line bears the `User-Agent` label, the user-agent of those
/// lines is the fallback value `"Unknown User-Agent"`.
pub proof fn lemma_user_agent_fallback(ls: Seq<Seq<u8>>)
    requires
        forall|k: int| 0 <= k < ls.len() ==> !starts_with(ls[k], ua_label()),
    ensures
        ua_of_lines(ls) == default_ua(),
    decreases ls.len(),
{
    if ls.len() > 0 {
        assert(forall|k: int| 0 <= k < ls.len() - 1 ==> ls.drop_first()[k] == ls[k + 1]);
        lemma_user_agent_fallback(ls.drop_first());
    }
}

proof fn lemma_trim_nuls_padded(data: Seq<u8>, pad: Seq<u8>)
    requires
        forall|k: int| 0 <= k < pad.len() ==> pad[k] == 0,
        data.len() == 0 || data[data.len() - 1] != 0,
    ensures
        trim_nuls(data + pad) == data,
    decreases pad.len(),
{
    if pad.len() == 0 {
        assert(data + pad =~= data);
    } else {
        let s = data + pad;
        assert(s.last() == pad.last());
        assert(s.drop_last() =~= data + pad.drop_last());
        lemma_trim_nuls_padded(data, pad.drop_last());
    }
}

/// Round trip: a POST to `/files/` followed by `name`, whose body carries
/// `data` and then only the NUL padding of the fixed-size read, and whose
/// declared content length is `data`'s length, stores exactly `data`; and a
/// later file read that finds `data` is answered with a 200 octet-stream
/// response whose body is exactly `data` — byte for byte, text or not. `data`
/// itself must not end in a NUL byte, since the padding trim cannot tell such
/// a byte from the read padding and the stored bytes would fall short.
pub proof fn lemma_file_round_trip(buf: Seq<u8>, name: Seq<u8>, data: Seq<u8>, pad: Seq<u8>)
    requires
        request_tokens(buf).len() >= 2,
        request_tokens(buf)[0] == method_post(),
        request_tokens(buf)[1] == files_prefix() + name,
        body_of(buf) == data + pad,
        forall|k: int| 0 <= k < pad.len() ==> pad[k] == 0,
        data.len() == 0 || data[data.len() - 1] != 0,
        content_length_of(buf) == data.len(),
    ensures
        plan_of(buf) == ActionModel::WriteFile(name, data),
        file_get_of(Some(data)) == (ResponseModel {
            status: StatusCode::Okay,
            kind: BodyKind::OctetStream,
            body: data,
        }),
{
    let path = request_tokens(buf)[1];
    assert(path.take(files_prefix().len() as int) =~= files_prefix());
    assert(path.skip(files_prefix().len() as int) =~= name);
    assert(route_of(method_post(), path) == RouteModel::FilePost(name));
    lemma_trim_nuls_padded(data, pad);
    assert(trim_nuls(body_of(buf)).take(data.len() as int) =~= data);
    assert(truncated(body_of(buf), content_length_of(buf)) == Some(data));
}

/// A request whose request line holds fewer than two tokens is answered with
/// a bare 400 response.
pub proof fn lemma_bad_request_reply(buf: Seq<u8>)
    requires
        request_tokens(buf).len() < 2,
    ensures
        plan_of(buf) == ActionModel::Deliver(bare_response(StatusCode::BadRequest)),
{
}

/// A request whose method is neither GET nor POST is answered with a bare 405
/// response, whatever its path.
pub proof fn lemma_method_not_allowed_reply(buf: Seq<u8>)
    requires
        request_tokens(buf).len() >= 2,
        request_tokens(buf)[0] != method_get(),
        request_tokens(buf)[0] != method_post(),
    ensures
        plan_of(buf) == ActionModel::Deliver(bare_response(StatusCode::MethodNotAllowed)),
{
}

/// Every response the pipeline hands out is well-formed: a response without a
/// body kind carries no body bytes, so the serializer emits the two body
/// headers exactly when a body kind is set, and then with `Content-Length`
/// equal to the body's length.
pub proof fn lemma_responses_well_formed(buf: Seq<u8>, found: Option<Seq<u8>>, ok: bool)
    ensures
        plan_of(buf) matches ActionModel::Deliver(r) ==> response_wf(r),
        response_wf(file_get_of(found)),
        response_wf(file_post_of(ok)),
{
}

/// Connections do not talk across each other: a reply is a function of its own
/// connection's buffer alone, so two echo requests served side by side each
/// carry back their own text.
pub proof fn lemma_connections_independent(
    buf_a: Seq<u8>,
    buf_b: Seq<u8>,
    text_a: Seq<u8>,
    text_b: Seq<u8>,
)
    requires
        request_tokens(buf_a).len() >= 2,
        request_tokens(buf_a)[0] == method_get(),
        request_tokens(buf_a)[1] == echo_prefix() + text_a,
        request_tokens(buf_b).len() >= 2,
        request_tokens(buf_b)[0] == method_get(),
        request_tokens(buf_b)[1] == echo_prefix() + text_b,
    ensures
        plan_of(buf_a) == ActionModel::Deliver(text_response(text_a)),
        plan_of(buf_b) == ActionModel::Deliver(text_response(text_b)),
{
    lemma_echo_reply(buf_a, text_a);
    lemma_echo_reply(buf_b, text_b);
}



} // verus!
