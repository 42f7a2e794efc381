//! Request parsing: the first line of the buffer, whitespace-separated tokens,
//! header-line scanning for `User-Agent` and `Content-Length`, and the offset
//! of the request body behind the first blank line.

use vstd::prelude::*;
use crate::ascii::copy_range;
use crate::ascii::has_prefix;
use crate::ascii::lit_cl_label;
use crate::ascii::lit_default_ua;
use crate::ascii::lit_ua_label;
use crate::ascii::cl_label;
use crate::ascii::default_ua;
use crate::ascii::starts_with;
use crate::ascii::ua_label;

verus! {

/// A byte is request whitespace: space or one of the ASCII control characters
/// tab through carriage return.
pub open spec fn is_ws(b: u8) -> bool {
    b == 32 || (9 <= b && b <= 13)
}

/// Executable mirror of `is_ws`.
pub fn byte_is_ws(b: u8) -> (r: bool)
    ensures
        r == is_ws(b),
{
    b == 32 || (9 <= b && b <= 13)
}

/// The views of a sequence of byte vectors.
pub open spec fn views_of(vs: Seq<Vec<u8>>) -> Seq<Seq<u8>> {
    vs.map_values(|v: Vec<u8>| v@)
}

proof fn lemma_views_push(vs: Seq<Vec<u8>>, x: Vec<u8>)
    ensures
        views_of(vs.push(x)) == views_of(vs).push(x@),
{
    assert(views_of(vs.push(x)) =~= views_of(vs).push(x@));
}

/// The prefix of `s` before its first newline; all of `s` when it has none.
pub open spec fn first_line_of(s: Seq<u8>) -> Seq<u8>
    decreases s.len(),
{
    if s.len() == 0 {
        Seq::empty()
    } else if s[0] == 10 {
        Seq::empty()
    } else {
        seq![s[0]] + first_line_of(s.skip(1))
    }
}

proof fn lemma_first_line_take(s: Seq<u8>, j: int)
    requires
        0 <= j <= s.len(),
        forall|k: int| 0 <= k < j ==> s[k] != 10,
        j == s.len() || s[j] == 10,
    ensures
        first_line_of(s) == s.take(j),
    decreases j,
{
    if j == 0 {
        assert(first_line_of(s) =~= s.take(0));
    } else {
        assert(forall|k: int| 0 <= k < j - 1 ==> s.skip(1)[k] == s[k + 1]);
        lemma_first_line_take(s.skip(1), j - 1);
        assert(seq![s[0]] + s.skip(1).take(j - 1) =~= s.take(j));
    }
}

/// Copies the first line of `s` out of the buffer.
pub fn first_line(s: &Vec<u8>) -> (r: Vec<u8>)
    ensures
        r@ == first_line_of(s@),
{
    let mut j: usize = 0;
    while j < s.len() && s[j] != 10
        invariant
            j <= s@.len(),
            forall|k: int| 0 <= k < j ==> s@[k] != 10,
        decreases s@.len() - j,
    {
        j += 1;
    }
    proof {
        lemma_first_line_take(s@, j as int);
    }
    copy_range(s, 0, j)
}

/// A trailing carriage return is stripped from a line that ended at a newline.
pub open spec fn strip_cr(s: Seq<u8>) -> Seq<u8> {
    if s.len() > 0 && s.last() == 13 {
        s.drop_last()
    } else {
        s
    }
}

/// The lines of the buffer, split at newlines as the parser walks the bytes:
/// `cur` carries the bytes of the line read so far. A line closed by a newline
/// loses one trailing carriage return; the last line, when the buffer ends
/// without a newline, keeps its bytes as they stand.
pub open spec fn lines_from(s: Seq<u8>, cur: Seq<u8>) -> Seq<Seq<u8>>
    decreases s.len(),
{
    if s.len() == 0 {
        if cur.len() == 0 {
            Seq::empty()
        } else {
            seq![cur]
        }
    } else if s[0] == 10 {
        seq![strip_cr(cur)] + lines_from(s.skip(1), Seq::empty())
    } else {
        lines_from(s.skip(1), cur.push(s[0]))
    }
}

/// The lines of the whole buffer.
pub open spec fn lines_of(s: Seq<u8>) -> Seq<Seq<u8>> {
    lines_from(s, Seq::empty())
}

/// Splits the buffer into its lines.
pub fn split_lines(s: &Vec<u8>) -> (r: Vec<Vec<u8>>)
    ensures
        views_of(r@) == lines_of(s@),
{
    let mut out: Vec<Vec<u8>> = Vec::new();
    let mut cur: Vec<u8> = Vec::new();
    let mut i: usize = 0;
    proof {
        assert(s@.skip(0) =~= s@);
        assert(views_of(Seq::<Vec<u8>>::empty()) =~= Seq::<Seq<u8>>::empty());
        assert(Seq::<Seq<u8>>::empty() + lines_from(s@, Seq::empty()) =~= lines_from(
            s@,
            Seq::empty(),
        ));
    }
    while i < s.len()
        invariant
            i <= s@.len(),
            lines_of(s@) == views_of(out@) + lines_from(s@.skip(i as int), cur@),
        decreases s@.len() - i,
    {
        let b = s[i];
        proof {
            assert(s@.skip(i as int).skip(1) =~= s@.skip(i as int + 1));
            assert(s@.skip(i as int)[0] == s@[i as int]);
        }
        if b == 10 {
            let ghost prev_out = out@;
            let ghost prev_cur = cur@;
            let mut line = cur;
            cur = Vec::new();
            if line.len() > 0 && line[line.len() - 1] == 13 {
                line.pop();
                proof {
                    assert(line@ =~= strip_cr(prev_cur));
                }
            }
            proof {
                assert(line@ == strip_cr(prev_cur));
            }
            out.push(line);
            proof {
                lemma_views_push(prev_out, line);
                assert(views_of(prev_out) + (seq![strip_cr(prev_cur)] + lines_from(
                    s@.skip(i as int + 1),
                    Seq::empty(),
                )) =~= views_of(out@) + lines_from(s@.skip(i as int + 1), cur@));
            }
        } else {
            let ghost prev_cur = cur@;
            cur.push(b);
            proof {
                assert(lines_from(s@.skip(i as int), prev_cur) == lines_from(
                    s@.skip(i as int + 1),
                    cur@,
                ));
            }
        }
        i += 1;
    }
    proof {
        assert(s@.skip(s@.len() as int) =~= Seq::<u8>::empty());
    }
    if cur.len() > 0 {
        let ghost prev_out = out@;
        proof {
            lemma_views_push(prev_out, cur);
        }
        let moved = cur;
        out.push(moved);
        proof {
            assert(views_of(prev_out) + seq![moved@] =~= views_of(out@));
            assert(views_of(out@) + Seq::<Seq<u8>>::empty() =~= views_of(out@));
        }
    } else {
        proof {
            assert(views_of(out@) + Seq::<Seq<u8>>::empty() =~= views_of(out@));
        }
    }
    out
}

/// The whitespace-separated tokens of `s`, as the parser walks the bytes:
/// `cur` carries the token read so far.
pub open spec fn tokens_from(s: Seq<u8>, cur: Seq<u8>) -> Seq<Seq<u8>>
    decreases s.len(),
{
    if s.len() == 0 {
        if cur.len() == 0 {
            Seq::empty()
        } else {
            seq![cur]
        }
    } else if is_ws(s[0]) {
        if cur.len() == 0 {
            tokens_from(s.skip(1), Seq::empty())
        } else {
            seq![cur] + tokens_from(s.skip(1), Seq::empty())
        }
    } else {
        tokens_from(s.skip(1), cur.push(s[0]))
    }
}

/// The whitespace-separated tokens of `s`.
pub open spec fn tokens_of(s: Seq<u8>) -> Seq<Seq<u8>> {
    tokens_from(s, Seq::empty())
}

/// Splits `s` into its whitespace-separated tokens.
pub fn split_tokens(s: &Vec<u8>) -> (r: Vec<Vec<u8>>)
    ensures
        views_of(r@) == tokens_of(s@),
{
    let mut out: Vec<Vec<u8>> = Vec::new();
    let mut cur: Vec<u8> = Vec::new();
    let mut i: usize = 0;
    proof {
        assert(s@.skip(0) =~= s@);
        assert(views_of(Seq::<Vec<u8>>::empty()) =~= Seq::<Seq<u8>>::empty());
        assert(Seq::<Seq<u8>>::empty() + tokens_from(s@, Seq::empty()) =~= tokens_from(
            s@,
            Seq::empty(),
        ));
    }
    while i < s.len()
        invariant
            i <= s@.len(),
            tokens_of(s@) == views_of(out@) + tokens_from(s@.skip(i as int), cur@),
        decreases s@.len() - i,
    {
        let b = s[i];
        proof {
            assert(s@.skip(i as int).skip(1) =~= s@.skip(i as int + 1));
            assert(s@.skip(i as int)[0] == s@[i as int]);
        }
        if byte_is_ws(b) {
            if cur.len() > 0 {
                let ghost prev_out = out@;
                let ghost prev_cur = cur@;
                let moved = cur;
                cur = Vec::new();
                out.push(moved);
                proof {
                    lemma_views_push(prev_out, moved);
                    assert(views_of(prev_out) + (seq![prev_cur] + tokens_from(
                        s@.skip(i as int + 1),
                        Seq::empty(),
                    )) =~= views_of(out@) + tokens_from(s@.skip(i as int + 1), cur@));
                }
            } else {
                proof {
                    assert(cur@ =~= Seq::<u8>::empty());
                    assert(tokens_from(s@.skip(i as int), cur@) == tokens_from(
                        s@.skip(i as int + 1),
                        cur@,
                    ));
                }
            }
        } else {
            let ghost prev_cur = cur@;
            cur.push(b);
            proof {
                assert(tokens_from(s@.skip(i as int), prev_cur) == tokens_from(
                    s@.skip(i as int + 1),
                    cur@,
                ));
            }
        }
        i += 1;
    }
    proof {
        assert(s@.skip(s@.len() as int) =~= Seq::<u8>::empty());
    }
    if cur.len() > 0 {
        let ghost prev_out = out@;
        proof {
            lemma_views_push(prev_out, cur);
        }
        let moved = cur;
        out.push(moved);
        proof {
            assert(views_of(prev_out) + seq![moved@] =~= views_of(out@));
            assert(views_of(out@) + Seq::<Seq<u8>>::empty() =~= views_of(out@));
        }
    } else {
        proof {
            assert(views_of(out@) + Seq::<Seq<u8>>::empty() =~= views_of(out@));
        }
    }
    out
}

/// The value of a matched `User-Agent` line: the label is removed, and one
/// following space with it.
pub open spec fn ua_value(line: Seq<u8>) -> Seq<u8> {
    if starts_with(line, ua_label().push(32)) {
        line.skip(ua_label().len() as int + 1)
    } else {
        line.skip(ua_label().len() as int)
    }
}

/// The user-agent carried by a sequence of header lines: the value of the
/// first line bearing the label, or the fallback value when none does.
pub open spec fn ua_of_lines(ls: Seq<Seq<u8>>) -> Seq<u8>
    decreases ls.len(),
{
    if ls.len() == 0 {
        default_ua()
    } else if starts_with(ls[0], ua_label()) {
        ua_value(ls[0])
    } else {
        ua_of_lines(ls.drop_first())
    }
}

/// The user-agent of a whole request buffer.
pub open spec fn user_agent_of(buf: Seq<u8>) -> Seq<u8> {
    ua_of_lines(lines_of(buf))
}

/// Scans the request for a `User-Agent` header line and returns its value,
/// or `"Unknown User-Agent"` when no line bears the label.
pub fn extract_user_agent(request: &Vec<u8>) -> (r: Vec<u8>)
    ensures
        r@ == user_agent_of(request@),
{
    let lines = split_lines(request);
    let label = lit_ua_label();
    let mut i: usize = 0;
    proof {
        assert(views_of(lines@).skip(0) =~= views_of(lines@));
    }
    while i < lines.len()
        invariant
            i <= lines@.len(),
            views_of(lines@) == lines_of(request@),
            label@ == ua_label(),
            user_agent_of(request@) == ua_of_lines(views_of(lines@).skip(i as int)),
        decreases lines@.len() - i,
    {
        let line = &lines[i];
        proof {
            assert(views_of(lines@).skip(i as int)[0] == line@);
        }
        if has_prefix(line, &label) {
            let cut: usize = if line.len() > 11 && line[11] == 32 {
                12
            } else {
                11
            };
            proof {
                assert(ua_label().len() == 11);
                if line@.len() > 11 && line@[11] == 32 {
                    assert(line@.take(12) =~= ua_label().push(32));
                    assert(starts_with(line@, ua_label().push(32)));
                } else {
                    if starts_with(line@, ua_label().push(32)) {
                        assert(line@.take(12)[11] == line@[11]);
                        assert(ua_label().push(32)[11] == 32);
                        assert(false);
                    }
                }
                assert(line@.subrange(cut as int, line@.len() as int) =~= ua_value(line@));
            }
            return copy_range(line, cut, line.len());
        }
        proof {
            assert(views_of(lines@).skip(i as int).drop_first() =~= views_of(lines@).skip(
                i as int + 1,
            ));
        }
        i += 1;
    }
    proof {
        assert(views_of(lines@).skip(lines@.len() as int) =~= Seq::<Seq<u8>>::empty());
    }
    lit_default_ua()
}

/// A decimal digit.
pub open spec fn is_digit(b: u8) -> bool {
    48 <= b && b <= 57
}

/// The value of a digit string, most significant digit first.
pub open spec fn digits_val(s: Seq<u8>) -> int
    decreases s.len(),
{
    if s.len() == 0 {
        0
    } else {
        digits_val(s.drop_last()) * 10 + s.last() - 48
    }
}

/// Every byte of `s` is a decimal digit.
pub open spec fn all_digits(s: Seq<u8>) -> bool {
    forall|i: int| 0 <= i < s.len() ==> is_digit(s[i])
}

/// Leading whitespace removed.
pub open spec fn trim_front(s: Seq<u8>) -> Seq<u8>
    decreases s.len(),
{
    if s.len() > 0 && is_ws(s[0]) {
        trim_front(s.skip(1))
    } else {
        s
    }
}

/// Trailing whitespace removed.
pub open spec fn trim_back(s: Seq<u8>) -> Seq<u8>
    decreases s.len(),
{
    if s.len() > 0 && is_ws(s.last()) {
        trim_back(s.drop_last())
    } else {
        s
    }
}

/// Surrounding whitespace removed.
pub open spec fn trim_ws(s: Seq<u8>) -> Seq<u8> {
    trim_back(trim_front(s))
}

/// How an unsigned decimal is read from header text: one optional leading plus
/// sign, then digits. An empty digit string, a stray byte, or a value over
/// `usize::MAX` reads as zero.
pub open spec fn uint_of(s: Seq<u8>) -> int {
    let t = if s.len() > 0 && s[0] == 43 {
        s.skip(1)
    } else {
        s
    };
    if t.len() > 0 && all_digits(t) && digits_val(t) <= usize::MAX {
        digits_val(t)
    } else {
        0
    }
}

/// The value of a matched `Content-Length` line: the text after the label's
/// colon, trimmed of whitespace, read as an unsigned decimal.
pub open spec fn cl_value(line: Seq<u8>) -> int {
    uint_of(trim_ws(line.skip(cl_label().len() as int)))
}

/// The content length reported by a sequence of header lines: the value of the
/// last line bearing the label; zero when none does.
pub open spec fn cl_of_lines(ls: Seq<Seq<u8>>) -> int
    decreases ls.len(),
{
    if ls.len() == 0 {
        0
    } else if starts_with(ls.last(), cl_label()) {
        cl_value(ls.last())
    } else {
        cl_of_lines(ls.drop_last())
    }
}

/// The content length of a whole request buffer.
pub open spec fn content_length_of(buf: Seq<u8>) -> int {
    cl_of_lines(lines_of(buf))
}

proof fn lemma_trim_front_at(s: Seq<u8>, j: int)
    requires
        0 <= j <= s.len(),
        forall|k: int| 0 <= k < j ==> is_ws(s[k]),
        j == s.len() || !is_ws(s[j]),
    ensures
        trim_front(s) == s.skip(j),
    decreases j,
{
    if j == 0 {
        assert(s.skip(0) =~= s);
    } else {
        assert(forall|k: int| 0 <= k < j - 1 ==> s.skip(1)[k] == s[k + 1]);
        lemma_trim_front_at(s.skip(1), j - 1);
        assert(s.skip(1).skip(j - 1) =~= s.skip(j));
    }
}

proof fn lemma_trim_back_at(s: Seq<u8>, k: int)
    requires
        0 <= k <= s.len(),
        forall|m: int| k <= m < s.len() ==> is_ws(s[m]),
        k == 0 || !is_ws(s[k - 1]),
    ensures
        trim_back(s) == s.take(k),
    decreases s.len(),
{
    if k == s.len() {
        assert(s.take(k) =~= s);
    } else {
        assert(is_ws(s.last()));
        assert(forall|m: int| k <= m < s.len() - 1 ==> s.drop_last()[m] == s[m]);
        lemma_trim_back_at(s.drop_last(), k);
        assert(s.drop_last().take(k) =~= s.take(k));
    }
}

/// Reads the numeric value of a line that bears the `Content-Length` label.
#[verifier::loop_isolation(false)]
fn content_length_value(line: &Vec<u8>) -> (r: usize)
    requires
        starts_with(line@, cl_label()),
    ensures
        r as int == cl_value(line@),
{
    proof {
        assert(cl_label().len() == 15);
    }
    let n = line.len();
    let mut lo: usize = 15;
    while lo < n && byte_is_ws(line[lo])
        invariant
            15 <= lo <= n == line@.len(),
            forall|k: int| 15 <= k < lo ==> is_ws(line@[k]),
        decreases n - lo,
    {
        lo += 1;
    }
    let mut hi: usize = n;
    while hi > lo && byte_is_ws(line[hi - 1])
        invariant
            lo <= hi <= n == line@.len(),
            forall|k: int| hi <= k < n ==> is_ws(line@[k]),
        decreases hi,
    {
        hi -= 1;
    }
    proof {
        let tail = line@.skip(15);
        assert(forall|k: int| 0 <= k < tail.len() ==> tail[k] == line@[k + 15]);
        lemma_trim_front_at(tail, lo as int - 15);
        assert(tail.skip(lo as int - 15) =~= line@.skip(lo as int));
        let mid = line@.skip(lo as int);
        assert(forall|k: int| 0 <= k < mid.len() ==> mid[k] == line@[k + lo]);
        lemma_trim_back_at(mid, hi as int - lo as int);
        assert(mid.take(hi as int - lo as int) =~= line@.subrange(lo as int, hi as int));
        assert(trim_ws(line@.skip(15)) == line@.subrange(lo as int, hi as int));
    }
    let start: usize = if lo < hi && line[lo] == 43 {
        lo + 1
    } else {
        lo
    };
    let ghost v_all = line@.subrange(lo as int, hi as int);
    let ghost t = line@.subrange(start as int, hi as int);
    proof {
        if v_all.len() > 0 && v_all[0] == 43 {
            assert(v_all.skip(1) =~= line@.subrange(lo as int + 1, hi as int));
            assert(start == lo + 1);
        } else {
            assert(start == lo);
            assert(v_all =~= t);
        }
    }
    if start == hi {
        proof {
            assert(t.len() == 0);
            assert(cl_value(line@) == 0);
        }
        return 0;
    }
    let limit_q: usize = usize::MAX / 10;
    let limit_r: usize = usize::MAX % 10;
    proof {
        assert(usize::MAX as int == 10 * (usize::MAX as int / 10) + (usize::MAX as int % 10));
        assert(0 <= usize::MAX as int % 10 < 10);
    }
    let mut val: usize = 0;
    let mut over: bool = false;
    let mut i: usize = start;
    proof {
        assert(line@.subrange(start as int, start as int) =~= Seq::<u8>::empty());
    }
    while i < hi
        invariant
            start <= i <= hi <= line@.len(),
            t == line@.subrange(start as int, hi as int),
            limit_q as int == usize::MAX as int / 10,
            limit_r as int == usize::MAX as int % 10,
            forall|k: int| start <= k < i ==> is_digit(line@[k]),
            !over ==> val as int == digits_val(line@.subrange(start as int, i as int)),
            over ==> digits_val(line@.subrange(start as int, i as int)) > usize::MAX,
        decreases hi - i,
    {
        let d = line[i];
        if d < 48 || d > 57 {
            proof {
                assert(!is_digit(t[i - start]));
                assert(!all_digits(t));
                assert(cl_value(line@) == 0);
            }
            return 0;
        }
        let ghost prev = line@.subrange(start as int, i as int);
        let ghost next = line@.subrange(start as int, i as int + 1);
        proof {
            assert(next.drop_last() =~= prev);
            assert(next.last() == line@[i as int]);
            assert(digits_val(next) == digits_val(prev) * 10 + d - 48);
        }
        if over {
            proof {
                assert(digits_val(prev) * 10 >= digits_val(prev) + 9 * digits_val(prev));
                assert(digits_val(next) > usize::MAX);
            }
        } else {
            let dd: usize = (d - 48) as usize;
            if val > limit_q || (val == limit_q && dd > limit_r) {
                over = true;
                proof {
                    assert(usize::MAX as int == 10 * limit_q + limit_r);
                    assert(digits_val(next) > usize::MAX);
                }
            } else {
                proof {
                    assert(usize::MAX as int == 10 * limit_q + limit_r);
                    assert(val as int * 10 + dd <= usize::MAX);
                }
                val = val * 10 + dd;
            }
        }
        i += 1;
    }
    proof {
        assert(line@.subrange(start as int, i as int) == t);
        assert(t.len() > 0);
        assert(forall|k: int| 0 <= k < t.len() ==> t[k] == line@[k + start]);
        assert(all_digits(t));
    }
    if over {
        proof {
            assert(cl_value(line@) == 0);
        }
        0
    } else {
        proof {
            assert(cl_value(line@) == digits_val(t));
        }
        val
    }
}

/// Scans the request for `Content-Length` header lines and returns the value
/// of the last one; zero when none occurs or its value cannot be read.
pub fn extract_content_length(request: &Vec<u8>) -> (r: usize)
    ensures
        r as int == content_length_of(request@),
{
    let lines = split_lines(request);
    let label = lit_cl_label();
    let mut i: usize = lines.len();
    proof {
        assert(views_of(lines@).take(lines@.len() as int) =~= views_of(lines@));
    }
    while i > 0
        invariant
            i <= lines@.len(),
            views_of(lines@) == lines_of(request@),
            label@ == cl_label(),
            content_length_of(request@) == cl_of_lines(views_of(lines@).take(i as int)),
        decreases i,
    {
        let ghost i0 = i as int;
        i -= 1;
        let line = &lines[i];
        proof {
            assert(views_of(lines@).take(i0).last() == line@);
        }
        if has_prefix(line, &label) {
            let v = content_length_value(line);
            proof {
                assert(cl_of_lines(views_of(lines@).take(i0)) == cl_value(line@));
            }
            return v;
        }
        proof {
            assert(views_of(lines@).take(i0).drop_last() =~= views_of(lines@).take(i as int));
        }
    }
    proof {
        assert(views_of(lines@).take(0) =~= Seq::<Seq<u8>>::empty());
    }
    0
}

/// A blank line (`\r\n\r\n`) stands at offset `i` of `s`.
pub open spec fn blank_at(s: Seq<u8>, i: int) -> bool {
    s[i] == 13 && s[i + 1] == 10 && s[i + 2] == 13 && s[i + 3] == 10
}

/// The offset of the first blank line in `s`; `s.len()` when none occurs.
pub open spec fn find_blank(s: Seq<u8>) -> int
    decreases s.len(),
{
    if s.len() < 4 {
        s.len() as int
    } else if blank_at(s, 0) {
        0
    } else {
        1 + find_blank(s.skip(1))
    }
}

/// Where the request body starts: just past the first blank line, or at the
/// start of the buffer when no blank line occurs.
pub open spec fn body_start_of(s: Seq<u8>) -> int {
    if find_blank(s) == s.len() {
        0
    } else {
        find_blank(s) + 4
    }
}

/// The request body: the bytes from the body offset to the end of the buffer.
pub open spec fn body_of(s: Seq<u8>) -> Seq<u8> {
    s.skip(body_start_of(s))
}

proof fn lemma_find_blank_at(s: Seq<u8>, j: int)
    requires
        0 <= j,
        j + 4 <= s.len(),
        blank_at(s, j),
        forall|k: int| 0 <= k < j ==> !blank_at(s, k),
    ensures
        find_blank(s) == j,
    decreases j,
{
    assert(forall|x: int| 0 <= x < s.len() - 1 ==> s.skip(1)[x] == s[x + 1]);
    if j > 0 {
        assert(!blank_at(s, 0));
        assert(blank_at(s.skip(1), j - 1));
        assert forall|k: int| 0 <= k < j - 1 implies !blank_at(s.skip(1), k) by {
            if blank_at(s.skip(1), k) {
                assert(blank_at(s, k + 1));
            }
        };
        lemma_find_blank_at(s.skip(1), j - 1);
    }
}

proof fn lemma_find_blank_none(s: Seq<u8>)
    requires
        forall|k: int| 0 <= k && k + 4 <= s.len() ==> !blank_at(s, k),
    ensures
        find_blank(s) == s.len(),
    decreases s.len(),
{
    if s.len() >= 4 {
        assert(!blank_at(s, 0));
        assert(forall|x: int| 0 <= x < s.len() - 1 ==> s.skip(1)[x] == s[x + 1]);
        assert forall|k: int| 0 <= k && k + 4 <= s.len() - 1 implies !blank_at(s.skip(1), k) by {
            if blank_at(s.skip(1), k) {
                assert(blank_at(s, k + 1));
            }
        };
        lemma_find_blank_none(s.skip(1));
    }
}

/// Finds where the request body starts in the buffer.
pub fn body_start(s: &Vec<u8>) -> (r: usize)
    ensures
        r as int == body_start_of(s@),
        r <= s@.len(),
{
    if s.len() < 4 {
        proof {
            lemma_find_blank_none(s@);
        }
        return 0;
    }
    let mut i: usize = 0;
    while i <= s.len() - 4
        invariant
            4 <= s@.len(),
            i <= s@.len(),
            forall|k: int| 0 <= k < i ==> !blank_at(s@, k),
        decreases s@.len() - i,
    {
        if s[i] == 13 && s[i + 1] == 10 && s[i + 2] == 13 && s[i + 3] == 10 {
            proof {
                lemma_find_blank_at(s@, i as int);
            }
            return i + 4;
        }
        i += 1;
    }
    proof {
        lemma_find_blank_none(s@);
    }
    0
}

/// Trailing NUL bytes removed: the fixed-size read pads the buffer with them.
pub open spec fn trim_nuls(s: Seq<u8>) -> Seq<u8>
    decreases s.len(),
{
    if s.len() > 0 && s.last() == 0 {
        trim_nuls(s.drop_last())
    } else {
        s
    }
}

/// What a file upload stores: the body with its read padding trimmed, cut to
/// exactly the declared content length; nothing when fewer bytes than that
/// remain.
pub open spec fn truncated(body: Seq<u8>, n: int) -> Option<Seq<u8>> {
    let t = trim_nuls(body);
    if 0 <= n <= t.len() {
        Some(t.take(n))
    } else {
        None
    }
}

proof fn lemma_trim_nuls_take(s: Seq<u8>, k: int)
    requires
        0 <= k <= s.len(),
        forall|m: int| k <= m < s.len() ==> s[m] == 0,
        k == 0 || s[k - 1] != 0,
    ensures
        trim_nuls(s) == s.take(k),
    decreases s.len(),
{
    if k == s.len() {
        assert(s.take(k) =~= s);
    } else {
        assert(s.last() == 0);
        assert(forall|m: int| k <= m < s.len() - 1 ==> s.drop_last()[m] == s[m]);
        lemma_trim_nuls_take(s.drop_last(), k);
        assert(s.drop_last().take(k) =~= s.take(k));
    }
}

/// Cuts an upload body to its declared content length, after trimming the NUL
/// padding that the fixed-size read leaves; nothing when fewer bytes remain
/// than the declared length.
pub fn truncate_body(body: &Vec<u8>, content_length: usize) -> (r: Option<Vec<u8>>)
    ensures
        r is Some <==> truncated(body@, content_length as int) is Some,
        r matches Some(v) ==> truncated(body@, content_length as int) == Some(v@),
{
    let mut k: usize = body.len();
    while k > 0 && body[k - 1] == 0
        invariant
            k <= body@.len(),
            forall|m: int| k <= m < body@.len() ==> body@[m] == 0,
        decreases k,
    {
        k -= 1;
    }
    proof {
        lemma_trim_nuls_take(body@, k as int);
    }
    if content_length <= k {
        let out = copy_range(body, 0, content_length);
        proof {
            assert(body@.take(k as int).take(content_length as int) =~= body@.subrange(
                0,
                content_length as int,
            ));
        }
        Some(out)
    } else {
        None
    }
}

} // verus!
