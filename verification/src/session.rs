//! The text around requests on the server's connections: request lines out
//! of received bytes, answer lines, login tokens and the token secret.

use vstd::prelude::*;

use crate::cmd_parse::{split_chars, split_on};
use crate::radix::{parse_radix, radix_text};
use crate::text::{chars_of, lossy_utf8, string_from_chars, utf8_lossy, views};

verus! {

/// `l` without one trailing carriage return.
pub open spec fn strip_cr(l: Seq<char>) -> Seq<char> {
    if l.len() > 0 && l.last() == '\r' {
        l.drop_last()
    } else {
        l
    }
}

pub open spec fn nonempty(l: Seq<char>) -> bool {
    l.len() > 0
}

/// The lines of `s` that a newline ends, without their line ending (`\n`
/// or `\r\n`).
pub open spec fn ended_lines(s: Seq<char>) -> Seq<Seq<char>> {
    split_on(s, '\n').drop_last().map_values(|l: Seq<char>| strip_cr(l))
}

/// The non-empty lines of `s` as `str::lines` gives them: split at `\n`,
/// a `\r` before the `\n` dropped, the last line without a line ending kept
/// as it is.
pub open spec fn request_lines_of(s: Seq<char>) -> Seq<Seq<char>> {
    ended_lines(s).push(split_on(s, '\n').last()).filter(|l: Seq<char>| nonempty(l))
}

proof fn lemma_split_on_len(s: Seq<char>, d: char)
    ensures
        split_on(s, d).len() >= 1,
    decreases s.len(),
{
    if s.len() > 0 {
        lemma_split_on_len(s.drop_last(), d);
    }
}

/// The non-empty request lines of the text `s` (see `request_lines_of`).
pub fn text_lines(s: &str) -> (r: Vec<String>)
    ensures
        views(r@) == request_lines_of(s@),
{
    broadcast use Seq::lemma_filter_push;

    let c = chars_of(s);
    let mut out: Vec<String> = Vec::new();
    let mut cur: Vec<char> = Vec::new();
    let mut i: usize = 0;
    let ghost pred = |l: Seq<char>| nonempty(l);
    assert(c@.take(0) =~= Seq::<char>::empty());
    assert(ended_lines(Seq::<char>::empty()) =~= Seq::<Seq<char>>::empty());
    while i < c.len()
        invariant
            i <= c@.len(),
            c@ == s@,
            pred == (|l: Seq<char>| nonempty(l)),
            views(out@) == ended_lines(c@.take(i as int)).filter(pred),
            cur@ == split_on(c@.take(i as int), '\n').last(),
        decreases c@.len() - i,
    {
        let ghost t = c@.take(i as int);
        let ghost t2 = c@.take(i + 1);
        assert(t2.drop_last() =~= t);
        assert(t2.last() == c@[i as int]);
        proof {
            lemma_split_on_len(t, '\n');
        }
        if c[i] == '\n' {
            let mut line = cur;
            if line.len() > 0 && line[line.len() - 1] == '\r' {
                line.pop();
            }
            assert(line@ == strip_cr(split_on(t, '\n').last()));
            assert(ended_lines(t2) =~= ended_lines(t).push(line@));
            proof {
                ended_lines(t).lemma_filter_push(line@, pred);
            }
            let ghost before = out@;
            if line.len() > 0 {
                out.push(string_from_chars(&line));
                assert(views(out@) =~= views(before).push(line@));
            }
            cur = Vec::new();
            assert(cur@ =~= split_on(t2, '\n').last());
        } else {
            cur.push(c[i]);
            assert(split_on(t2, '\n').drop_last() =~= split_on(t, '\n').drop_last());
            assert(ended_lines(t2) =~= ended_lines(t));
        }
        i = i + 1;
    }
    assert(c@.take(i as int) =~= c@);
    proof {
        ended_lines(c@).lemma_filter_push(cur@, pred);
    }
    let ghost before = out@;
    if cur.len() > 0 {
        out.push(string_from_chars(&cur));
        assert(views(out@) =~= views(before).push(cur@));
    }
    out
}

/// The non-empty request lines in the received bytes, read as UTF-8 with
/// invalid sequences replaced (`String::from_utf8_lossy`).
pub fn request_lines(bytes: &[u8]) -> (r: Vec<String>)
    ensures
        views(r@) == request_lines_of(lossy_utf8(bytes@)),
{
    let text = utf8_lossy(bytes);
    text_lines(text.as_str())
}

/// The non-empty parts of a websocket text between its newlines.
pub fn message_lines(text: &str) -> (r: Vec<String>)
    ensures
        views(r@) == split_on(text@, '\n').filter(|l: Seq<char>| nonempty(l)),
{
    broadcast use Seq::lemma_filter_push;

    let parts = split_chars(&chars_of(text), '\n');
    let ghost all = views(parts@);
    let ghost pred = |l: Seq<char>| nonempty(l);
    let mut out: Vec<String> = Vec::new();
    let mut i: usize = 0;
    assert(all.take(0) =~= Seq::<Seq<char>>::empty());
    while i < parts.len()
        invariant
            i <= parts@.len(),
            all == views(parts@),
            all == split_on(text@, '\n'),
            pred == (|l: Seq<char>| nonempty(l)),
            views(out@) == all.take(i as int).filter(pred),
        decreases parts@.len() - i,
    {
        assert(all.take(i + 1) =~= all.take(i as int).push(all[i as int]));
        proof {
            all.take(i as int).lemma_filter_push(all[i as int], pred);
        }
        let ghost before = out@;
        if parts[i].as_str().unicode_len() > 0 {
            out.push(parts[i].clone());
            assert(views(out@) =~= views(before).push(all[i as int]));
        }
        i = i + 1;
    }
    assert(all.take(i as int) =~= all);
    out
}

/// An answer as sent on a stream: it ends with a newline.
pub fn with_newline(s: String) -> (r: String)
    ensures
        r@ == (if s@.len() > 0 && s@.last() == '\n' {
            s@
        } else {
            s@.push('\n')
        }),
{
    let mut c = chars_of(s.as_str());
    if c.len() > 0 && c[c.len() - 1] == '\n' {
        s
    } else {
        c.push('\n');
        string_from_chars(&c)
    }
}

/// The command of an http request: the `cmd` query parameter, or else the
/// body read as UTF-8 with invalid sequences replaced.
pub fn exec_command_text(cmd: Option<String>, body: &[u8]) -> (r: String)
    ensures
        r@ == match cmd {
            Some(c) => c@,
            None => lossy_utf8(body@),
        },
{
    match cmd {
        Some(c) => c,
        None => utf8_lossy(body),
    }
}

/// The login token of an http request: the `token` query parameter, or else
/// the `x-pisugar-token` header.
pub fn request_token(query_token: Option<String>, header_token: Option<String>) -> (r: Option<
    String,
>)
    ensures
        r == match query_token {
            Some(t) => Some(t),
            None => header_token,
        },
{
    match query_token {
        Some(t) => Some(t),
        None => header_token,
    }
}

/// Whether an http request may go on: always without authentication,
/// otherwise only with a token that verified (`token_ok`: `None` without a
/// token, else whether it verified).
pub fn auth_passes(need_auth: bool, token_ok: Option<bool>) -> (r: bool)
    ensures
        r == (!need_auth || token_ok == Some(true)),
{
    !need_auth || token_ok == Some(true)
}

/// The expiry of a new login token: now plus the session timeout, seconds.
pub fn token_expiration(now_secs: u64, expire_seconds: u64) -> (r: u64)
    requires
        now_secs + expire_seconds <= u64::MAX,
    ensures
        r == now_secs + expire_seconds,
{
    now_secs + expire_seconds
}

/// A decoded token is still good until the second it expires.
pub fn token_unexpired(exp: u64, now_secs: u64) -> (r: bool)
    ensures
        r == (exp >= now_secs),
{
    !(exp < now_secs)
}

/// The base64 alphabet of RFC 4648 (`A-Z`, `a-z`, `0-9`, `+`, `/`).
pub open spec fn b64_char(v: int) -> char {
    if v < 26 {
        (('A' as int) + v) as char
    } else if v < 52 {
        (('a' as int) + v - 26) as char
    } else if v < 62 {
        (('0' as int) + v - 52) as char
    } else if v == 62 {
        '+'
    } else {
        '/'
    }
}

/// Standard base64 with `=` padding (RFC 4648, section 4).
pub open spec fn base64_of(b: Seq<u8>) -> Seq<char>
    decreases b.len(),
{
    if b.len() == 0 {
        Seq::empty()
    } else {
        let b0 = b[0] as int;
        let b1 = if b.len() > 1 {
            b[1] as int
        } else {
            0
        };
        let b2 = if b.len() > 2 {
            b[2] as int
        } else {
            0
        };
        let c0 = b64_char(b0 / 4);
        let c1 = b64_char((b0 % 4) * 16 + b1 / 16);
        let c2 = b64_char((b1 % 16) * 4 + b2 / 64);
        let c3 = b64_char(b2 % 64);
        if b.len() == 1 {
            seq![c0, c1, '=', '=']
        } else if b.len() == 2 {
            seq![c0, c1, c2, '=']
        } else {
            seq![c0, c1, c2, c3] + base64_of(b.skip(3))
        }
    }
}

/// Calls the `STANDARD` engine of the base64 crate; claimed: the standard
/// alphabet with `=` padding, as `base64_of` states it.
#[verifier::external_body]
fn base64_standard(bytes: &[u8]) -> (s: String)
    ensures
        s@ == base64_of(bytes@),
{
    base64::Engine::encode(&base64::engine::general_purpose::STANDARD, bytes)
}

/// A new secret for login tokens, from 32 random bytes: their base64 text.
pub fn jwt_secret_of(random: &[u8; 32]) -> (s: String)
    ensures
        s@ == base64_of(random@),
{
    base64_standard(random.as_slice())
}

} // verus!

verus! {

/// A line that already ends with a newline is sent as it is, so adding the
/// newline twice changes nothing.
pub proof fn law_with_newline_idempotent(s: Seq<char>)
    ensures
        ({
            let once = if s.len() > 0 && s.last() == '\n' {
                s
            } else {
                s.push('\n')
            };
            let twice = if once.len() > 0 && once.last() == '\n' {
                once
            } else {
                once.push('\n')
            };
            twice == once && once.len() > 0 && once.last() == '\n'
        }),
{
}

} // verus!

verus! {

/// The permissions of the server's socket file: the octal mode given, or
/// 0o666 when it is no octal number that fits in 32 bits.
pub fn uds_file_mode(mode: &str) -> (r: u32)
    ensures
        r == match radix_text(mode@, 8, u32::MAX as nat) {
            Some(v) => v as u32,
            None => 0o666,
        },
{
    let c = chars_of(mode);
    assert(c@.skip(0) =~= c@);
    match parse_radix(&c, 0, 8, 0xffff_ffff) {
        Some(v) => v as u32,
        None => 0o666,
    }
}

} // verus!

verus! {

/// No request line is empty.
pub proof fn law_request_lines_nonempty(s: Seq<char>)
    ensures
        forall|i: int|
            0 <= i < request_lines_of(s).len() ==> (#[trigger] request_lines_of(s)[i]).len() > 0,
{
    let all = ended_lines(s).push(split_on(s, '\n').last());
    let pred = |l: Seq<char>| nonempty(l);
    assert forall|i: int|
        0 <= i < all.filter(pred).len() implies (#[trigger] all.filter(pred)[i]).len() > 0 by {
        all.lemma_filter_pred(pred, i);
    }
}

} // verus!
