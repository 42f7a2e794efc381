//! Byte-sequence helpers shared by the parser and the serializer: prefix tests,
//! subrange copies, and appends, each specified over `Seq<u8>`.

use vstd::prelude::*;

verus! {

/// `p` is a prefix of `s`.
pub open spec fn starts_with(s: Seq<u8>, p: Seq<u8>) -> bool {
    p.len() <= s.len() && s.take(p.len() as int) == p
}

/// Copies `s[a..b]` into a fresh vector.
pub fn copy_range(s: &Vec<u8>, a: usize, b: usize) -> (r: Vec<u8>)
    requires
        a <= b <= s@.len(),
    ensures
        r@ == s@.subrange(a as int, b as int),
{
    let mut r: Vec<u8> = Vec::new();
    let mut i: usize = a;
    while i < b
        invariant
            a <= i <= b <= s@.len(),
            r@ == s@.subrange(a as int, i as int),
        decreases b - i,
    {
        r.push(s[i]);
        proof {
            assert(r@ =~= s@.subrange(a as int, i + 1 as int));
        }
        i += 1;
    }
    r
}

/// Appends all of `w` to `v`.
pub fn push_all(v: &mut Vec<u8>, w: &Vec<u8>)
    ensures
        final(v)@ == old(v)@ + w@,
{
    let mut i: usize = 0;
    while i < w.len()
        invariant
            i <= w@.len(),
            v@ == old(v)@ + w@.take(i as int),
        decreases w@.len() - i,
    {
        v.push(w[i]);
        proof {
            assert(v@ =~= old(v)@ + w@.take(i + 1 as int));
        }
        i += 1;
    }
    proof {
        assert(old(v)@ + w@.take(w@.len() as int) =~= old(v)@ + w@);
    }
}

/// `r` is true exactly when `p` is a prefix of `s`.
pub fn has_prefix(s: &Vec<u8>, p: &Vec<u8>) -> (r: bool)
    ensures
        r == starts_with(s@, p@),
{
    if p.len() > s.len() {
        proof {
            assert(!starts_with(s@, p@));
        }
        return false;
    }
    let mut i: usize = 0;
    while i < p.len()
        invariant
            i <= p@.len() <= s@.len(),
            forall|k: int| 0 <= k < i ==> s@[k] == p@[k],
        decreases p@.len() - i,
    {
        if s[i] != p[i] {
            proof {
                assert(s@.take(p@.len() as int)[i as int] != p@[i as int]);
            }
            return false;
        }
        i += 1;
    }
    proof {
        assert(s@.take(p@.len() as int) =~= p@);
    }
    true
}

/// `r` is true exactly when `a` and `b` hold the same bytes.
pub fn bytes_eq(a: &Vec<u8>, b: &Vec<u8>) -> (r: bool)
    ensures
        r == (a@ == b@),
{
    if a.len() != b.len() {
        return false;
    }
    let mut i: usize = 0;
    while i < a.len()
        invariant
            i <= a@.len() == b@.len(),
            forall|k: int| 0 <= k < i ==> a@[k] == b@[k],
        decreases a@.len() - i,
    {
        if a[i] != b[i] {
            return false;
        }
        i += 1;
    }
    proof {
        assert(a@ =~= b@);
    }
    true
}

/// The bytes of `"GET"`: the GET method token.
pub open spec fn method_get() -> Seq<u8> {
    seq![71u8, 69u8, 84u8]
}

/// Builds `method_get()` as a vector.
pub fn lit_method_get() -> (r: Vec<u8>)
    ensures
        r@ == method_get(),
{
    let r = vec![71u8, 69u8, 84u8];
    proof {
        assert(r@ =~= method_get());
    }
    r
}

/// The bytes of `"POST"`: the POST method token.
pub open spec fn method_post() -> Seq<u8> {
    seq![80u8, 79u8, 83u8, 84u8]
}

/// Builds `method_post()` as a vector.
pub fn lit_method_post() -> (r: Vec<u8>)
    ensures
        r@ == method_post(),
{
    let r = vec![80u8, 79u8, 83u8, 84u8];
    proof {
        assert(r@ =~= method_post());
    }
    r
}

/// The bytes of `"/echo/"`: the echo route prefix.
pub open spec fn echo_prefix() -> Seq<u8> {
    seq![47u8, 101u8, 99u8, 104u8, 111u8, 47u8]
}

/// Builds `echo_prefix()` as a vector.
pub fn lit_echo_prefix() -> (r: Vec<u8>)
    ensures
        r@ == echo_prefix(),
{
    let r = vec![47u8, 101u8, 99u8, 104u8, 111u8, 47u8];
    proof {
        assert(r@ =~= echo_prefix());
    }
    r
}

/// The bytes of `"/files/"`: the file route prefix.
pub open spec fn files_prefix() -> Seq<u8> {
    seq![47u8, 102u8, 105u8, 108u8, 101u8, 115u8, 47u8]
}

/// Builds `files_prefix()` as a vector.
pub fn lit_files_prefix() -> (r: Vec<u8>)
    ensures
        r@ == files_prefix(),
{
    let r = vec![47u8, 102u8, 105u8, 108u8, 101u8, 115u8, 47u8];
    proof {
        assert(r@ =~= files_prefix());
    }
    r
}

/// The bytes of `"/user-agent"`: the user-agent route path.
pub open spec fn user_agent_path() -> Seq<u8> {
    seq![47u8, 117u8, 115u8, 101u8, 114u8, 45u8, 97u8, 103u8, 101u8, 110u8, 116u8]
}

/// Builds `user_agent_path()` as a vector.
pub fn lit_user_agent_path() -> (r: Vec<u8>)
    ensures
        r@ == user_agent_path(),
{
    let r = vec![47u8, 117u8, 115u8, 101u8, 114u8, 45u8, 97u8, 103u8, 101u8, 110u8, 116u8];
    proof {
        assert(r@ =~= user_agent_path());
    }
    r
}

/// The bytes of `"/"`: the root route path.
pub open spec fn root_path() -> Seq<u8> {
    seq![47u8]
}

/// Builds `root_path()` as a vector.
pub fn lit_root_path() -> (r: Vec<u8>)
    ensures
        r@ == root_path(),
{
    let r = vec![47u8];
    proof {
        assert(r@ =~= root_path());
    }
    r
}

/// The bytes of `"User-Agent:"`: the User-Agent header label.
pub open spec fn ua_label() -> Seq<u8> {
    seq![85u8, 115u8, 101u8, 114u8, 45u8, 65u8, 103u8, 101u8, 110u8, 116u8, 58u8]
}

/// Builds `ua_label()` as a vector.
pub fn lit_ua_label() -> (r: Vec<u8>)
    ensures
        r@ == ua_label(),
{
    let r = vec![85u8, 115u8, 101u8, 114u8, 45u8, 65u8, 103u8, 101u8, 110u8, 116u8, 58u8];
    proof {
        assert(r@ =~= ua_label());
    }
    r
}

/// The bytes of `"Unknown User-Agent"`: the fallback user-agent value.
pub open spec fn default_ua() -> Seq<u8> {
    seq![85u8, 110u8, 107u8, 110u8, 111u8, 119u8, 110u8, 32u8, 85u8, 115u8, 101u8, 114u8, 45u8, 65u8, 103u8, 101u8, 110u8, 116u8]
}

/// Builds `default_ua()` as a vector.
pub fn lit_default_ua() -> (r: Vec<u8>)
    ensures
        r@ == default_ua(),
{
    let r = vec![85u8, 110u8, 107u8, 110u8, 111u8, 119u8, 110u8, 32u8, 85u8, 115u8, 101u8, 114u8, 45u8, 65u8, 103u8, 101u8, 110u8, 116u8];
    proof {
        assert(r@ =~= default_ua());
    }
    r
}

/// The bytes of `"Content-Length:"`: the Content-Length header label.
pub open spec fn cl_label() -> Seq<u8> {
    seq![67u8, 111u8, 110u8, 116u8, 101u8, 110u8, 116u8, 45u8, 76u8, 101u8, 110u8, 103u8, 116u8, 104u8, 58u8]
}

/// Builds `cl_label()` as a vector.
pub fn lit_cl_label() -> (r: Vec<u8>)
    ensures
        r@ == cl_label(),
{
    let r = vec![67u8, 111u8, 110u8, 116u8, 101u8, 110u8, 116u8, 45u8, 76u8, 101u8, 110u8, 103u8, 116u8, 104u8, 58u8];
    proof {
        assert(r@ =~= cl_label());
    }
    r
}

/// The bytes of `"HTTP/1.1 "`: the status-line protocol prefix.
pub open spec fn http_prefix() -> Seq<u8> {
    seq![72u8, 84u8, 84u8, 80u8, 47u8, 49u8, 46u8, 49u8, 32u8]
}

/// Builds `http_prefix()` as a vector.
pub fn lit_http_prefix() -> (r: Vec<u8>)
    ensures
        r@ == http_prefix(),
{
    let r = vec![72u8, 84u8, 84u8, 80u8, 47u8, 49u8, 46u8, 49u8, 32u8];
    proof {
        assert(r@ =~= http_prefix());
    }
    r
}

/// The bytes of `"\r\n"`: the line terminator.
pub open spec fn crlf() -> Seq<u8> {
    seq![13u8, 10u8]
}

/// Builds `crlf()` as a vector.
pub fn lit_crlf() -> (r: Vec<u8>)
    ensures
        r@ == crlf(),
{
    let r = vec![13u8, 10u8];
    proof {
        assert(r@ =~= crlf());
    }
    r
}

/// The bytes of `"Content-Type: "`: the Content-Type response field prefix.
pub open spec fn ctype_field() -> Seq<u8> {
    seq![67u8, 111u8, 110u8, 116u8, 101u8, 110u8, 116u8, 45u8, 84u8, 121u8, 112u8, 101u8, 58u8, 32u8]
}

/// Builds `ctype_field()` as a vector.
pub fn lit_ctype_field() -> (r: Vec<u8>)
    ensures
        r@ == ctype_field(),
{
    let r = vec![67u8, 111u8, 110u8, 116u8, 101u8, 110u8, 116u8, 45u8, 84u8, 121u8, 112u8, 101u8, 58u8, 32u8];
    proof {
        assert(r@ =~= ctype_field());
    }
    r
}

/// The bytes of `"Content-Length: "`: the Content-Length response field prefix.
pub open spec fn clen_field() -> Seq<u8> {
    seq![67u8, 111u8, 110u8, 116u8, 101u8, 110u8, 116u8, 45u8, 76u8, 101u8, 110u8, 103u8, 116u8, 104u8, 58u8, 32u8]
}

/// Builds `clen_field()` as a vector.
pub fn lit_clen_field() -> (r: Vec<u8>)
    ensures
        r@ == clen_field(),
{
    let r = vec![67u8, 111u8, 110u8, 116u8, 101u8, 110u8, 116u8, 45u8, 76u8, 101u8, 110u8, 103u8, 116u8, 104u8, 58u8, 32u8];
    proof {
        assert(r@ =~= clen_field());
    }
    r
}

/// The bytes of `"OK"`: the 200 reason phrase.
pub open spec fn reason_okay() -> Seq<u8> {
    seq![79u8, 75u8]
}

/// Builds `reason_okay()` as a vector.
pub fn lit_reason_okay() -> (r: Vec<u8>)
    ensures
        r@ == reason_okay(),
{
    let r = vec![79u8, 75u8];
    proof {
        assert(r@ =~= reason_okay());
    }
    r
}

/// The bytes of `"Created"`: the 201 reason phrase.
pub open spec fn reason_created() -> Seq<u8> {
    seq![67u8, 114u8, 101u8, 97u8, 116u8, 101u8, 100u8]
}

/// Builds `reason_created()` as a vector.
pub fn lit_reason_created() -> (r: Vec<u8>)
    ensures
        r@ == reason_created(),
{
    let r = vec![67u8, 114u8, 101u8, 97u8, 116u8, 101u8, 100u8];
    proof {
        assert(r@ =~= reason_created());
    }
    r
}

/// The bytes of `"Bad Request"`: the 400 reason phrase.
pub open spec fn reason_bad_request() -> Seq<u8> {
    seq![66u8, 97u8, 100u8, 32u8, 82u8, 101u8, 113u8, 117u8, 101u8, 115u8, 116u8]
}

/// Builds `reason_bad_request()` as a vector.
pub fn lit_reason_bad_request() -> (r: Vec<u8>)
    ensures
        r@ == reason_bad_request(),
{
    let r = vec![66u8, 97u8, 100u8, 32u8, 82u8, 101u8, 113u8, 117u8, 101u8, 115u8, 116u8];
    proof {
        assert(r@ =~= reason_bad_request());
    }
    r
}

/// The bytes of `"Not Found"`: the 404 reason phrase.
pub open spec fn reason_not_found() -> Seq<u8> {
    seq![78u8, 111u8, 116u8, 32u8, 70u8, 111u8, 117u8, 110u8, 100u8]
}

/// Builds `reason_not_found()` as a vector.
pub fn lit_reason_not_found() -> (r: Vec<u8>)
    ensures
        r@ == reason_not_found(),
{
    let r = vec![78u8, 111u8, 116u8, 32u8, 70u8, 111u8, 117u8, 110u8, 100u8];
    proof {
        assert(r@ =~= reason_not_found());
    }
    r
}

/// The bytes of `"Method Not Allowed"`: the 405 reason phrase.
pub open spec fn reason_method_not_allowed() -> Seq<u8> {
    seq![77u8, 101u8, 116u8, 104u8, 111u8, 100u8, 32u8, 78u8, 111u8, 116u8, 32u8, 65u8, 108u8, 108u8, 111u8, 119u8, 101u8, 100u8]
}

/// Builds `reason_method_not_allowed()` as a vector.
pub fn lit_reason_method_not_allowed() -> (r: Vec<u8>)
    ensures
        r@ == reason_method_not_allowed(),
{
    let r = vec![77u8, 101u8, 116u8, 104u8, 111u8, 100u8, 32u8, 78u8, 111u8, 116u8, 32u8, 65u8, 108u8, 108u8, 111u8, 119u8, 101u8, 100u8];
    proof {
        assert(r@ =~= reason_method_not_allowed());
    }
    r
}

/// The bytes of `"Internal Server Error"`: the 500 reason phrase.
pub open spec fn reason_server_error() -> Seq<u8> {
    seq![73u8, 110u8, 116u8, 101u8, 114u8, 110u8, 97u8, 108u8, 32u8, 83u8, 101u8, 114u8, 118u8, 101u8, 114u8, 32u8, 69u8, 114u8, 114u8, 111u8, 114u8]
}

/// Builds `reason_server_error()` as a vector.
pub fn lit_reason_server_error() -> (r: Vec<u8>)
    ensures
        r@ == reason_server_error(),
{
    let r = vec![73u8, 110u8, 116u8, 101u8, 114u8, 110u8, 97u8, 108u8, 32u8, 83u8, 101u8, 114u8, 118u8, 101u8, 114u8, 32u8, 69u8, 114u8, 114u8, 111u8, 114u8];
    proof {
        assert(r@ =~= reason_server_error());
    }
    r
}

/// The bytes of `"text/plain"`: the text content type.
pub open spec fn ctype_text() -> Seq<u8> {
    seq![116u8, 101u8, 120u8, 116u8, 47u8, 112u8, 108u8, 97u8, 105u8, 110u8]
}

/// Builds `ctype_text()` as a vector.
pub fn lit_ctype_text() -> (r: Vec<u8>)
    ensures
        r@ == ctype_text(),
{
    let r = vec![116u8, 101u8, 120u8, 116u8, 47u8, 112u8, 108u8, 97u8, 105u8, 110u8];
    proof {
        assert(r@ =~= ctype_text());
    }
    r
}

/// The bytes of `"application/octet-stream"`: the binary content type.
pub open spec fn ctype_octet() -> Seq<u8> {
    seq![97u8, 112u8, 112u8, 108u8, 105u8, 99u8, 97u8, 116u8, 105u8, 111u8, 110u8, 47u8, 111u8, 99u8, 116u8, 101u8, 116u8, 45u8, 115u8, 116u8, 114u8, 101u8, 97u8, 109u8]
}

/// Builds `ctype_octet()` as a vector.
pub fn lit_ctype_octet() -> (r: Vec<u8>)
    ensures
        r@ == ctype_octet(),
{
    let r = vec![97u8, 112u8, 112u8, 108u8, 105u8, 99u8, 97u8, 116u8, 105u8, 111u8, 110u8, 47u8, 111u8, 99u8, 116u8, 101u8, 116u8, 45u8, 115u8, 116u8, 114u8, 101u8, 97u8, 109u8];
    proof {
        assert(r@ =~= ctype_octet());
    }
    r
}

} // verus!
