//! Session State Store: the two on-disk records that describe a channel's
//! session — the client descriptor (login mode and, for remote channels,
//! host and token) and the process descriptor (written by the backend once
//! it has bound a port and minted a token).
//!
//! The records are held in a small JSON shape.  Reading and writing the
//! files is the caller's business; this module parses and renders the
//! record text, and proves that a rendered record is read back identically.

use vstd::prelude::*;
use vstd::string::StrSliceExecFns;
use vstd::string::StringExecFns;

use crate::text::is_digit;
use crate::text::digit_val;
use crate::text::digits_val;
use crate::text::spec_digits;
use crate::text::all_digits;
use crate::text::pow10;
use crate::text::lemma_digits_roundtrip;
use crate::text::lemma_digits_len;
use crate::text::u64_to_string;
use crate::text::i64_to_string;
use crate::text::chars_eq;

verus! {

// ---------------------------------------------------------------------------
// Token combinators, specification level.  Each consumes from the front of a
// character sequence and yields the remainder.
// ---------------------------------------------------------------------------

/// Consumes the exact literal `lit` from the front of `s`.
pub open spec fn take_lit(s: Seq<char>, lit: Seq<char>) -> Option<Seq<char>> {
    if lit.len() <= s.len() && s.take(lit.len() as int) == lit {
        Some(s.skip(lit.len() as int))
    } else {
        None
    }
}

/// A string content that needs no escaping: no quote, no backslash.
pub open spec fn json_clean(s: Seq<char>) -> bool {
    forall|i: int| 0 <= i < s.len() ==> s[i] != '"' && s[i] != '\\'
}

/// Length of the run of decimal digits at the front of `s`.
pub open spec fn digit_run_len(s: Seq<char>) -> int
    decreases s.len(),
{
    if s.len() > 0 && is_digit(s[0]) {
        1 + digit_run_len(s.skip(1))
    } else {
        0
    }
}

/// Consumes a decimal number of one to eighteen digits whose value is at
/// most `max`.
pub open spec fn take_number(s: Seq<char>, max: int) -> Option<(int, Seq<char>)> {
    let k = digit_run_len(s);
    if 1 <= k <= 18 && digits_val(s.take(k)) <= max {
        Some((digits_val(s.take(k)), s.skip(k)))
    } else {
        None
    }
}

/// Index of the closing quote in `s`, provided no backslash comes first.
pub open spec fn quote_scan(s: Seq<char>) -> Option<int>
    decreases s.len(),
{
    if s.len() == 0 {
        None
    } else if s[0] == '"' {
        Some(0)
    } else if s[0] == '\\' {
        None
    } else {
        match quote_scan(s.skip(1)) {
            Some(j) => Some(1 + j),
            None => None,
        }
    }
}

/// Consumes a quoted string without escapes and yields its content.
pub open spec fn take_string(s: Seq<char>) -> Option<(Seq<char>, Seq<char>)> {
    if s.len() >= 1 && s[0] == '"' {
        match quote_scan(s.skip(1)) {
            Some(j) => Some((s.skip(1).take(j), s.skip(1).skip(j + 1))),
            None => None,
        }
    } else {
        None
    }
}

/// Consumes either the literal `null` or a number.
pub open spec fn take_opt_number(s: Seq<char>, max: int) -> Option<(Option<int>, Seq<char>)> {
    match take_lit(s, "null"@) {
        Some(rest) => Some((None, rest)),
        None => match take_number(s, max) {
            Some((v, rest)) => Some((Some(v), rest)),
            None => None,
        },
    }
}

/// Consumes either the literal `null` or a quoted string.
pub open spec fn take_opt_string(s: Seq<char>) -> Option<(Option<Seq<char>>, Seq<char>)> {
    match take_lit(s, "null"@) {
        Some(rest) => Some((None, rest)),
        None => match take_string(s) {
            Some((v, rest)) => Some((Some(v), rest)),
            None => None,
        },
    }
}

// ---------------------------------------------------------------------------
// Combinator round-trip lemmas.
// ---------------------------------------------------------------------------

/// A literal placed at the front of a text is consumed exactly.
pub proof fn lemma_take_lit(lit: Seq<char>, rest: Seq<char>)
    ensures
        take_lit(lit + rest, lit) == Some(rest),
{
    let s = lit + rest;
    assert(s.take(lit.len() as int) =~= lit);
    assert(s.skip(lit.len() as int) =~= rest);
}

/// The digit run of a digit sequence followed by a non-digit covers
/// exactly the digit sequence.
proof fn lemma_digit_run(prefix: Seq<char>, rest: Seq<char>)
    requires
        all_digits(prefix),
        rest.len() == 0 || !is_digit(rest[0]),
    ensures
        digit_run_len(prefix + rest) == prefix.len(),
    decreases prefix.len(),
{
    let s = prefix + rest;
    if prefix.len() == 0 {
        assert(s =~= rest);
    } else {
        assert(s[0] == prefix[0]);
        assert(s.skip(1) =~= prefix.skip(1) + rest);
        lemma_digit_run(prefix.skip(1), rest);
    }
}

/// A rendered number followed by a non-digit is consumed back as the same
/// value.
pub proof fn lemma_take_number(n: int, max: int, rest: Seq<char>)
    requires
        0 <= n <= max,
        n < pow10(18),
        rest.len() == 0 || !is_digit(rest[0]),
    ensures
        take_number(spec_digits(n) + rest, max) == Some((n, rest)),
{
    let digits = spec_digits(n);
    let s = digits + rest;
    lemma_digits_roundtrip(n);
    lemma_digits_len(n, 18);
    lemma_digit_run(digits, rest);
    assert(s.take(digits.len() as int) =~= digits);
    assert(s.skip(digits.len() as int) =~= rest);
}

/// Scanning clean content finds the closing quote right after it.
proof fn lemma_quote_scan(content: Seq<char>, rest: Seq<char>)
    requires
        json_clean(content),
    ensures
        quote_scan(content + (seq!['"'] + rest)) == Some(content.len() as int),
    decreases content.len(),
{
    let s = content + (seq!['"'] + rest);
    if content.len() == 0 {
        assert(s =~= seq!['"'] + rest);
        assert(s[0] == '"');
    } else {
        assert(s[0] == content[0]);
        assert(s.skip(1) =~= content.skip(1) + (seq!['"'] + rest));
        lemma_quote_scan(content.skip(1), rest);
    }
}

/// A rendered string token is consumed back as its content.
pub proof fn lemma_take_string(content: Seq<char>, rest: Seq<char>)
    requires
        json_clean(content),
    ensures
        take_string(seq!['"'] + content + seq!['"'] + rest) == Some((content, rest)),
{
    let s = seq!['"'] + content + seq!['"'] + rest;
    assert(s[0] == '"');
    assert(s.skip(1) =~= content + (seq!['"'] + rest));
    lemma_quote_scan(content, rest);
    let j = content.len() as int;
    assert(s.skip(1).take(j) =~= content);
    assert(s.skip(1).skip(j + 1) =~= rest);
}

/// A rendered number is not mistaken for the literal `null`.
pub proof fn lemma_number_not_null(n: int, rest: Seq<char>)
    requires
        n >= 0,
    ensures
        take_lit(spec_digits(n) + rest, "null"@) is None,
{
    lemma_digits_roundtrip(n);
    let s = spec_digits(n) + rest;
    let lit = "null"@;
    reveal_strlit("null");
    if lit.len() <= s.len() && s.take(lit.len() as int) == lit {
        assert(s.take(lit.len() as int)[0] == 'n');
        assert(s[0] == spec_digits(n)[0]);
        assert(is_digit(s[0]));
        assert(false);
    }
}

/// A rendered string token is not mistaken for the literal `null`.
pub proof fn lemma_string_not_null(tail: Seq<char>)
    ensures
        take_lit(seq!['"'] + tail, "null"@) is None,
{
    let s = seq!['"'] + tail;
    let lit = "null"@;
    reveal_strlit("null");
    if lit.len() <= s.len() && s.take(lit.len() as int) == lit {
        assert(s.take(lit.len() as int)[0] == 'n');
        assert(s[0] == '"');
        assert(false);
    }
}

// ---------------------------------------------------------------------------
// Token combinators, executable level.
// ---------------------------------------------------------------------------

/// Decides whether a character is a decimal digit.
fn is_digit_exec(c: char) -> (r: bool)
    ensures
        r == is_digit(c),
{
    c == '0' || c == '1' || c == '2' || c == '3' || c == '4' || c == '5' || c == '6' || c == '7'
        || c == '8' || c == '9'
}

/// Numeric value of a decimal digit character.
fn digit_val_exec(c: char) -> (r: u64)
    requires
        is_digit(c),
    ensures
        r == digit_val(c),
{
    if c == '0' {
        0
    } else if c == '1' {
        1
    } else if c == '2' {
        2
    } else if c == '3' {
        3
    } else if c == '4' {
        4
    } else if c == '5' {
        5
    } else if c == '6' {
        6
    } else if c == '7' {
        7
    } else if c == '8' {
        8
    } else {
        9
    }
}

/// Consumes the literal `lit` from the front of `s`.
fn take_lit_exec<'a>(s: &'a str, lit: &str) -> (r: Option<&'a str>)
    ensures
        match r {
            Some(rest) => take_lit(s@, lit@) == Some(rest@),
            None => take_lit(s@, lit@) is None,
        },
{
    let n = lit.unicode_len();
    let slen = s.unicode_len();
    if n <= slen {
        let head = s.substring_char(0, n);
        if chars_eq(head, lit) {
            Some(s.substring_char(n, slen))
        } else {
            None
        }
    } else {
        None
    }
}

/// Length of the digit run at the front of `s`.
fn digit_run_exec(s: &str) -> (k: usize)
    ensures
        k as int == digit_run_len(s@),
        k <= s@.len(),
{
    let len = s.unicode_len();
    let mut i: usize = 0;
    proof {
        assert(s@.skip(0) =~= s@);
    }
    while i < len && is_digit_exec(s.get_char(i))
        invariant
            i <= len,
            len == s@.len(),
            digit_run_len(s@) == i + digit_run_len(s@.skip(i as int)),
        decreases len - i,
    {
        proof {
            let t = s@.skip(i as int);
            assert(t[0] == s@[i as int]);
            assert(t.skip(1) =~= s@.skip(i as int + 1));
        }
        i = i + 1;
    }
    proof {
        let t = s@.skip(i as int);
        if i < len {
            assert(t[0] == s@[i as int]);
            assert(digit_run_len(t) == 0);
        } else {
            assert(t =~= Seq::<char>::empty());
        }
    }
    i
}

/// Consumes a decimal number of one to eighteen digits with value at most
/// `max`.
pub fn take_number_exec<'a>(s: &'a str, max: i64) -> (r: Option<(i64, &'a str)>)
    requires
        max >= 0,
    ensures
        match r {
            Some((v, rest)) => v >= 0 && take_number(s@, max as int) == Some((v as int, rest@)),
            None => take_number(s@, max as int) is None,
        },
{
    let len = s.unicode_len();
    let k = digit_run_exec(s);
    if k < 1 || k > 18 {
        return None;
    }
    proof {
        reveal_with_fuel(pow10, 19);
        assert(pow10(18) == 1000000000000000000);
    }
    let mut acc: u64 = 0;
    let mut i: usize = 0;
    while i < k
        invariant
            i <= k,
            k <= len,
            len == s@.len(),
            1 <= k <= 18,
            k as int == digit_run_len(s@),
            acc as int == digits_val(s@.take(k as int).take(i as int)),
            acc < pow10(i as nat),
            pow10(18) == 1000000000000000000,
        decreases k - i,
    {
        proof {
            assert(digit_run_len(s@) == k);
            lemma_run_is_digits(s@, k as int, i as int);
            let p = s@.take(k as int);
            assert(p.take(i as int + 1).drop_last() =~= p.take(i as int));
            assert(p.take(i as int + 1).last() == s@[i as int]);
            assert(pow10((i + 1) as nat) == 10 * pow10(i as nat));
            lemma_pow10_le(i as nat, 17);
        }
        let c = s.get_char(i);
        let d = digit_val_exec(c);
        acc = acc * 10 + d;
        i = i + 1;
    }
    proof {
        assert(s@.take(k as int).take(k as int) =~= s@.take(k as int));
    }
    if acc <= (max as u64) {
        let rest = s.substring_char(k, len);
        Some((acc as i64, rest))
    } else {
        None
    }
}

/// Within the digit run, every character is a digit.
proof fn lemma_run_is_digits(s: Seq<char>, k: int, i: int)
    requires
        digit_run_len(s) == k,
        0 <= i < k,
    ensures
        k <= s.len(),
        is_digit(s[i]),
    decreases i,
{
    lemma_digit_run_le_len(s);
    assert(s.len() > 0 && is_digit(s[0]));
    if i > 0 {
        assert(digit_run_len(s.skip(1)) == k - 1);
        lemma_run_is_digits(s.skip(1), k - 1, i - 1);
        assert(s.skip(1)[i - 1] == s[i]);
    }
}

/// The digit run never runs past the end of the sequence.
proof fn lemma_digit_run_le_len(s: Seq<char>)
    ensures
        0 <= digit_run_len(s) <= s.len(),
    decreases s.len(),
{
    if s.len() > 0 && is_digit(s[0]) {
        lemma_digit_run_le_len(s.skip(1));
    }
}

/// `pow10` grows with its exponent.
proof fn lemma_pow10_le(a: nat, b: nat)
    requires
        a <= b,
    ensures
        pow10(a) <= pow10(b),
        pow10(a) >= 1,
    decreases b,
{
    if a < b {
        lemma_pow10_le(a, (b - 1) as nat);
        assert(pow10(b) == 10 * pow10((b - 1) as nat));
    } else {
        if a > 0 {
            lemma_pow10_le((a - 1) as nat, (a - 1) as nat);
        }
    }
}

/// Index of the closing quote, provided no backslash comes first.
fn quote_scan_exec(s: &str) -> (r: Option<usize>)
    ensures
        match r {
            Some(i) => quote_scan(s@) == Some(i as int),
            None => quote_scan(s@) is None,
        },
{
    let len = s.unicode_len();
    let mut i: usize = 0;
    proof {
        assert(s@.skip(0) =~= s@);
    }
    while i < len
        invariant
            i <= len,
            len == s@.len(),
            quote_scan(s@) == match quote_scan(s@.skip(i as int)) {
                Some(j) => Some(i + j),
                None => None::<int>,
            },
        decreases len - i,
    {
        let c = s.get_char(i);
        proof {
            let t = s@.skip(i as int);
            assert(t[0] == s@[i as int]);
            assert(t.skip(1) =~= s@.skip(i as int + 1));
        }
        if c == '"' {
            return Some(i);
        }
        if c == '\\' {
            return None;
        }
        i = i + 1;
    }
    proof {
        assert(s@.skip(i as int) =~= Seq::<char>::empty());
    }
    None
}

/// A found closing quote lies within the sequence.
proof fn lemma_quote_scan_bounds(s: Seq<char>)
    ensures
        match quote_scan(s) {
            Some(j) => 0 <= j < s.len() && s[j] == '"',
            None => true,
        },
    decreases s.len(),
{
    if s.len() > 0 && s[0] != '"' && s[0] != '\\' {
        lemma_quote_scan_bounds(s.skip(1));
    }
}

/// Consumes a quoted string without escapes and yields its content.
fn take_string_exec<'a>(s: &'a str) -> (r: Option<(String, &'a str)>)
    ensures
        match r {
            Some((v, rest)) => take_string(s@) == Some((v@, rest@)),
            None => take_string(s@) is None,
        },
{
    let len = s.unicode_len();
    if len >= 1 && s.get_char(0) == '"' {
        let tail = s.substring_char(1, len);
        match quote_scan_exec(tail) {
            Some(j) => {
                proof {
                    lemma_quote_scan_bounds(tail@);
                }
                let content = tail.substring_char(0, j);
                let rest = tail.substring_char(j + 1, len - 1);
                proof {
                    assert(tail@ =~= s@.skip(1));
                    assert(tail@.subrange(0, j as int) =~= s@.skip(1).take(j as int));
                    assert(tail@.subrange(j as int + 1, len - 1) =~= s@.skip(1).skip(j as int + 1));
                }
                Some((content.to_owned(), rest))
            },
            None => None,
        }
    } else {
        None
    }
}

/// Consumes either the literal `null` or a number.
fn take_opt_number_exec<'a>(s: &'a str, max: i64) -> (r: Option<(Option<i64>, &'a str)>)
    requires
        max >= 0,
    ensures
        match r {
            Some((v, rest)) => (match v {
                Some(n) => n >= 0,
                None => true,
            }) && take_opt_number(s@, max as int) == Some(
                (
                    match v {
                        Some(n) => Some(n as int),
                        None => None::<int>,
                    },
                    rest@,
                ),
            ),
            None => take_opt_number(s@, max as int) is None,
        },
{
    match take_lit_exec(s, "null") {
        Some(rest) => Some((None, rest)),
        None => match take_number_exec(s, max) {
            Some((v, rest)) => Some((Some(v), rest)),
            None => None,
        },
    }
}

/// Consumes either the literal `null` or a quoted string.
fn take_opt_string_exec<'a>(s: &'a str) -> (r: Option<(Option<String>, &'a str)>)
    ensures
        match r {
            Some((v, rest)) => take_opt_string(s@) == Some(
                (
                    match v {
                        Some(t) => Some(t@),
                        None => None::<Seq<char>>,
                    },
                    rest@,
                ),
            ),
            None => take_opt_string(s@) is None,
        },
{
    match take_lit_exec(s, "null") {
        Some(rest) => Some((None, rest)),
        None => match take_string_exec(s) {
            Some((v, rest)) => Some((Some(v), rest)),
            None => None,
        },
    }
}

// ---------------------------------------------------------------------------
// The two records.
// ---------------------------------------------------------------------------

/// Persisted login mode of a channel.
#[derive(PartialEq, Eq, Structural, Clone, Copy, Debug)]
pub enum LoginMode {
    Local,
    Remote,
}

/// Host and token of a pre-configured remote backend.
#[derive(Clone, Debug)]
pub struct RemoteAccess {
    pub host: String,
    pub token: String,
}

/// Mathematical model of `RemoteAccess`.
pub struct RemoteAccessView {
    pub host: Seq<char>,
    pub token: Seq<char>,
}

impl View for RemoteAccess {
    type V = RemoteAccessView;

    open spec fn view(&self) -> RemoteAccessView {
        RemoteAccessView { host: self.host@, token: self.token@ }
    }
}

/// The client descriptor: login mode, and remote host/token if applicable.
/// Produced by setup tooling; read-only here.
#[derive(Clone, Debug)]
pub struct ClientDescriptor {
    pub mode: LoginMode,
    pub remote: Option<RemoteAccess>,
}

/// Mathematical model of `ClientDescriptor`.
pub struct ClientDescriptorView {
    pub mode: LoginMode,
    pub remote: Option<RemoteAccessView>,
}

impl View for ClientDescriptor {
    type V = ClientDescriptorView;

    open spec fn view(&self) -> ClientDescriptorView {
        ClientDescriptorView {
            mode: self.mode,
            remote: match self.remote {
                Some(r) => Some(r@),
                None => None,
            },
        }
    }
}

impl ClientDescriptorView {
    /// A remote channel always carries its host and token.
    pub open spec fn wf(self) -> bool {
        self.mode == LoginMode::Remote ==> self.remote is Some
    }

    /// The record can be written by a fixture and read back: the host and
    /// token contain no quote and no backslash.
    pub open spec fn fixture_ready(self) -> bool {
        match self.remote {
            Some(r) => json_clean(r.host) && json_clean(r.token),
            None => true,
        }
    }
}

/// The process descriptor, written by the backend at startup; port and
/// token appear only once binding completes.
#[derive(Clone, Debug)]
pub struct PidDescriptor {
    pub pid: i64,
    pub port: Option<i32>,
    pub token: Option<String>,
    pub start_time: i64,
}

/// Mathematical model of `PidDescriptor`.
pub struct PidDescriptorView {
    pub pid: int,
    pub port: Option<int>,
    pub token: Option<Seq<char>>,
    pub start_time: int,
}

impl View for PidDescriptor {
    type V = PidDescriptorView;

    open spec fn view(&self) -> PidDescriptorView {
        PidDescriptorView {
            pid: self.pid as int,
            port: match self.port {
                Some(p) => Some(p as int),
                None => None,
            },
            token: match self.token {
                Some(ref t) => Some(t@),
                None => None,
            },
            start_time: self.start_time as int,
        }
    }
}

impl PidDescriptorView {
    /// Binding has completed: the backend has published port and token.
    pub open spec fn complete(self) -> bool {
        self.port is Some && self.token is Some
    }

    /// The record can be written by a fixture and read back: numbers are
    /// nonnegative and in range, and the token contains no quote and no
    /// backslash.
    pub open spec fn fixture_ready(self) -> bool {
        &&& 0 <= self.pid < pow10(18)
        &&& 0 <= self.start_time < pow10(18)
        &&& match self.port {
            Some(p) => 0 <= p <= 0x7fff_ffff,
            None => true,
        }
        &&& match self.token {
            Some(t) => json_clean(t),
            None => true,
        }
    }
}

impl PidDescriptor {
    /// Whether the backend has published both port and token.
    pub fn is_complete(&self) -> (r: bool)
        ensures
            r == self@.complete(),
    {
        self.port.is_some() && self.token.is_some()
    }
}

// ---------------------------------------------------------------------------
// Record grammar, specification level.
// ---------------------------------------------------------------------------

/// A quoted string token around the given content.
pub open spec fn render_string(content: Seq<char>) -> Seq<char> {
    seq!['"'] + content + seq!['"']
}

/// A number, or the literal `null`.
pub open spec fn render_opt_number(v: Option<int>) -> Seq<char> {
    match v {
        Some(n) => spec_digits(n),
        None => "null"@,
    }
}

/// A quoted string, or the literal `null`.
pub open spec fn render_opt_string(v: Option<Seq<char>>) -> Seq<char> {
    match v {
        Some(t) => render_string(t),
        None => "null"@,
    }
}

/// The text of the process descriptor record.
pub open spec fn spec_render_pid_descriptor(v: PidDescriptorView) -> Seq<char> {
    "{\"pid\":"@ + spec_digits(v.pid) + ",\"port\":"@ + render_opt_number(v.port) + ",\"token\":"@
        + render_opt_string(v.token) + ",\"startTime\":"@ + spec_digits(v.start_time) + "}"@
}

/// The mode word written for a login mode.
pub open spec fn mode_text(m: LoginMode) -> Seq<char> {
    match m {
        LoginMode::Local => "local"@,
        LoginMode::Remote => "remote"@,
    }
}

/// The remote object of the client descriptor, or the literal `null`.
pub open spec fn render_remote(r: Option<RemoteAccessView>) -> Seq<char> {
    match r {
        Some(ra) => "{\"host\":"@ + render_string(ra.host) + ",\"token\":"@ + render_string(
            ra.token,
        ) + "}"@,
        None => "null"@,
    }
}

/// The text of the client descriptor record.
pub open spec fn spec_render_client_descriptor(v: ClientDescriptorView) -> Seq<char> {
    "{\"loginOption\":{\"mode\":"@ + render_string(mode_text(v.mode)) + ",\"remote\":"@
        + render_remote(v.remote) + "}}"@
}

/// Consumes the remote object of the client descriptor, or `null`.
pub open spec fn take_remote(s: Seq<char>) -> Option<(Option<RemoteAccessView>, Seq<char>)> {
    match take_lit(s, "null"@) {
        Some(rest) => Some((None, rest)),
        None => match take_lit(s, "{\"host\":"@) {
            None => None,
            Some(s1) => match take_string(s1) {
                None => None,
                Some((host, s2)) => match take_lit(s2, ",\"token\":"@) {
                    None => None,
                    Some(s3) => match take_string(s3) {
                        None => None,
                        Some((token, s4)) => match take_lit(s4, "}"@) {
                            None => None,
                            Some(s5) => Some((Some(RemoteAccessView { host, token }), s5)),
                        },
                    },
                },
            },
        },
    }
}

/// Meaning of the process descriptor text: the record it holds, or nothing
/// when the text is malformed.
pub open spec fn spec_parse_pid_descriptor(s: Seq<char>) -> Option<PidDescriptorView> {
    match take_lit(s, "{\"pid\":"@) {
        None => None,
        Some(s1) => match take_number(s1, 0x7fff_ffff_ffff_ffff) {
            None => None,
            Some((pid, s2)) => match take_lit(s2, ",\"port\":"@) {
                None => None,
                Some(s3) => match take_opt_number(s3, 0x7fff_ffff) {
                    None => None,
                    Some((port, s4)) => match take_lit(s4, ",\"token\":"@) {
                        None => None,
                        Some(s5) => match take_opt_string(s5) {
                            None => None,
                            Some((token, s6)) => match take_lit(s6, ",\"startTime\":"@) {
                                None => None,
                                Some(s7) => match take_number(s7, 0x7fff_ffff_ffff_ffff) {
                                    None => None,
                                    Some((start_time, s8)) => match take_lit(s8, "}"@) {
                                        None => None,
                                        Some(s9) => if s9.len() == 0 {
                                            Some(
                                                PidDescriptorView { pid, port, token, start_time },
                                            )
                                        } else {
                                            None
                                        },
                                    },
                                },
                            },
                        },
                    },
                },
            },
        },
    }
}

/// Meaning of the client descriptor text: the record it holds, or nothing
/// when the text is malformed.  A mode word other than `remote` reads as
/// the local mode; a remote record without its host and token is
/// malformed.
pub open spec fn spec_parse_client_descriptor(s: Seq<char>) -> Option<ClientDescriptorView> {
    match take_lit(s, "{\"loginOption\":{\"mode\":"@) {
        None => None,
        Some(s1) => match take_string(s1) {
            None => None,
            Some((mode_s, s2)) => match take_lit(s2, ",\"remote\":"@) {
                None => None,
                Some(s3) => match take_remote(s3) {
                    None => None,
                    Some((remote, s4)) => match take_lit(s4, "}}"@) {
                        None => None,
                        Some(s5) => if s5.len() != 0 {
                            None
                        } else if mode_s == "remote"@ {
                            if remote is Some {
                                Some(ClientDescriptorView { mode: LoginMode::Remote, remote })
                            } else {
                                None
                            }
                        } else {
                            Some(ClientDescriptorView { mode: LoginMode::Local, remote })
                        },
                    },
                },
            },
        },
    }
}

// ---------------------------------------------------------------------------
// Record round-trip lemmas.
// ---------------------------------------------------------------------------

/// A text that does not begin with `n` is not the literal `null`.
proof fn lemma_not_null(s: Seq<char>)
    requires
        s.len() > 0,
        s[0] != 'n',
    ensures
        take_lit(s, "null"@) is None,
{
    reveal_strlit("null");
    let lit = "null"@;
    if lit.len() <= s.len() && s.take(lit.len() as int) == lit {
        assert(s.take(lit.len() as int)[0] == 'n');
        assert(false);
    }
}

/// A rendered optional number followed by a non-digit is consumed back as
/// the same value.
proof fn lemma_take_opt_number(v: Option<int>, max: int, rest: Seq<char>)
    requires
        match v {
            Some(n) => 0 <= n <= max && n < pow10(18),
            None => true,
        },
        rest.len() == 0 || !is_digit(rest[0]),
        max >= 0,
    ensures
        take_opt_number(render_opt_number(v) + rest, max) == Some((v, rest)),
{
    match v {
        None => {
            lemma_take_lit("null"@, rest);
        },
        Some(n) => {
            lemma_number_not_null(n, rest);
            lemma_take_number(n, max, rest);
        },
    }
}

/// A rendered optional string is consumed back as the same value.
proof fn lemma_take_opt_string(v: Option<Seq<char>>, rest: Seq<char>)
    requires
        match v {
            Some(t) => json_clean(t),
            None => true,
        },
    ensures
        take_opt_string(render_opt_string(v) + rest) == Some((v, rest)),
{
    match v {
        None => {
            lemma_take_lit("null"@, rest);
        },
        Some(t) => {
            let s = render_string(t) + rest;
            assert(s =~= seq!['"'] + (t + seq!['"'] + rest));
            lemma_string_not_null(t + seq!['"'] + rest);
            lemma_take_string(t, rest);
        },
    }
}

/// A rendered remote object (or `null`) is consumed back as the same
/// value.
proof fn lemma_take_remote(r: Option<RemoteAccessView>, rest: Seq<char>)
    requires
        match r {
            Some(ra) => json_clean(ra.host) && json_clean(ra.token),
            None => true,
        },
    ensures
        take_remote(render_remote(r) + rest) == Some((r, rest)),
{
    match r {
        None => {
            lemma_take_lit("null"@, rest);
        },
        Some(ra) => {
            let lit1 = "{\"host\":"@;
            let lit2 = ",\"token\":"@;
            let lit3 = "}"@;
            let s = render_remote(r) + rest;
            reveal_strlit("{\"host\":");
            let r3 = render_string(ra.token) + (lit3 + rest);
            let r2 = lit2 + r3;
            let r1 = render_string(ra.host) + r2;
            assert(s =~= lit1 + r1);
            assert(s[0] == lit1[0]);
            lemma_not_null(s);
            lemma_take_lit(lit1, r1);
            assert(r1 =~= seq!['"'] + ra.host + seq!['"'] + r2);
            lemma_take_string(ra.host, r2);
            lemma_take_lit(lit2, r3);
            assert(r3 =~= seq!['"'] + ra.token + seq!['"'] + (lit3 + rest));
            lemma_take_string(ra.token, lit3 + rest);
            lemma_take_lit(lit3, rest);
        },
    }
}

/// The process descriptor round trip: a record written by a fixture is
/// read back identically.
#[verifier::rlimit(60)]
pub proof fn lemma_pid_descriptor_roundtrip(v: PidDescriptorView)
    requires
        v.fixture_ready(),
    ensures
        spec_parse_pid_descriptor(spec_render_pid_descriptor(v)) == Some(v),
{
    reveal_with_fuel(pow10, 19);
    assert(pow10(18) == 1000000000000000000);
    let lit1 = "{\"pid\":"@;
    let lit2 = ",\"port\":"@;
    let lit3 = ",\"token\":"@;
    let lit4 = ",\"startTime\":"@;
    let lit5 = "}"@;
    reveal_strlit(",\"port\":");
    reveal_strlit(",\"token\":");
    reveal_strlit(",\"startTime\":");
    reveal_strlit("}");
    let s = spec_render_pid_descriptor(v);
    let empty = Seq::<char>::empty();
    let r8 = lit5 + empty;
    let r7 = spec_digits(v.start_time) + r8;
    let r6 = lit4 + r7;
    let r5 = render_opt_string(v.token) + r6;
    let r4 = lit3 + r5;
    let r3 = render_opt_number(v.port) + r4;
    let r2 = lit2 + r3;
    let r1 = spec_digits(v.pid) + r2;
    assert(s =~= lit1 + r1);
    lemma_take_lit(lit1, r1);
    assert(r2[0] == ',');
    lemma_take_number(v.pid, 0x7fff_ffff_ffff_ffff, r2);
    lemma_take_lit(lit2, r3);
    assert(r4[0] == ',');
    lemma_take_opt_number(v.port, 0x7fff_ffff, r4);
    lemma_take_lit(lit3, r5);
    lemma_take_opt_string(v.token, r6);
    lemma_take_lit(lit4, r7);
    assert(r8[0] == '}');
    lemma_take_number(v.start_time, 0x7fff_ffff_ffff_ffff, r8);
    lemma_take_lit(lit5, empty);
}

/// The mode word contains no quote and no backslash.
proof fn lemma_mode_text_clean(m: LoginMode)
    ensures
        json_clean(mode_text(m)),
{
    reveal_strlit("local");
    reveal_strlit("remote");
    match m {
        LoginMode::Local => {
            let s = "local"@;
            assert forall|i: int| 0 <= i < s.len() implies s[i] != '"' && s[i] != '\\' by {
                if i == 0 {
                } else if i == 1 {
                } else if i == 2 {
                } else if i == 3 {
                } else {
                    assert(i == 4);
                }
            }
        },
        LoginMode::Remote => {
            let s = "remote"@;
            assert forall|i: int| 0 <= i < s.len() implies s[i] != '"' && s[i] != '\\' by {
                if i == 0 {
                } else if i == 1 {
                } else if i == 2 {
                } else if i == 3 {
                } else if i == 4 {
                } else {
                    assert(i == 5);
                }
            }
        },
    }
}

/// The client descriptor round trip: a record written by a fixture is
/// read back identically.
pub proof fn lemma_client_descriptor_roundtrip(v: ClientDescriptorView)
    requires
        v.wf(),
        v.fixture_ready(),
    ensures
        spec_parse_client_descriptor(spec_render_client_descriptor(v)) == Some(v),
{
    let lit1 = "{\"loginOption\":{\"mode\":"@;
    let lit2 = ",\"remote\":"@;
    let lit3 = "}}"@;
    let s = spec_render_client_descriptor(v);
    let empty = Seq::<char>::empty();
    let r4 = lit3 + empty;
    let r3 = render_remote(v.remote) + r4;
    let r2 = lit2 + r3;
    let r1 = render_string(mode_text(v.mode)) + r2;
    assert(s =~= lit1 + r1);
    lemma_take_lit(lit1, r1);
    lemma_mode_text_clean(v.mode);
    assert(r1 =~= seq!['"'] + mode_text(v.mode) + seq!['"'] + r2);
    lemma_take_string(mode_text(v.mode), r2);
    lemma_take_lit(lit2, r3);
    lemma_take_remote(v.remote, r4);
    lemma_take_lit(lit3, empty);
    reveal_strlit("local");
    reveal_strlit("remote");
    match v.mode {
        LoginMode::Remote => {
            assert(v.remote is Some);
        },
        LoginMode::Local => {
            assert(mode_text(v.mode) != "remote"@) by {
                assert("local"@.len() != "remote"@.len());
            }
        },
    }
}

// ---------------------------------------------------------------------------
// Record parse and render, executable level.
// ---------------------------------------------------------------------------

/// The value of a character sequence under `digits_val` is never negative.
proof fn lemma_digits_val_nonneg(s: Seq<char>)
    ensures
        digits_val(s) >= 0,
    decreases s.len(),
{
    if s.len() > 0 {
        lemma_digits_val_nonneg(s.drop_last());
    }
}

/// Consumes the remote object of the client descriptor, or `null`.
fn take_remote_exec<'a>(s: &'a str) -> (r: Option<(Option<RemoteAccess>, &'a str)>)
    ensures
        match r {
            Some((v, rest)) => take_remote(s@) == Some(
                (
                    match v {
                        Some(ra) => Some(ra@),
                        None => None::<RemoteAccessView>,
                    },
                    rest@,
                ),
            ),
            None => take_remote(s@) is None,
        },
{
    match take_lit_exec(s, "null") {
        Some(rest) => Some((None, rest)),
        None => {
            let s1 = match take_lit_exec(s, "{\"host\":") {
                Some(x) => x,
                None => {
                    return None;
                },
            };
            let (host, s2) = match take_string_exec(s1) {
                Some(x) => x,
                None => {
                    return None;
                },
            };
            let s3 = match take_lit_exec(s2, ",\"token\":") {
                Some(x) => x,
                None => {
                    return None;
                },
            };
            let (token, s4) = match take_string_exec(s3) {
                Some(x) => x,
                None => {
                    return None;
                },
            };
            let s5 = match take_lit_exec(s4, "}") {
                Some(x) => x,
                None => {
                    return None;
                },
            };
            Some((Some(RemoteAccess { host, token }), s5))
        },
    }
}

/// Parses the text of a process descriptor record; `None` when the text
/// is malformed.
pub fn parse_pid_descriptor(s: &str) -> (r: Option<PidDescriptor>)
    ensures
        match r {
            Some(d) => spec_parse_pid_descriptor(s@) == Some(d@),
            None => spec_parse_pid_descriptor(s@) is None,
        },
{
    let s1 = match take_lit_exec(s, "{\"pid\":") {
        Some(x) => x,
        None => {
            return None;
        },
    };
    let (pid, s2) = match take_number_exec(s1, 9223372036854775807i64) {
        Some(x) => x,
        None => {
            return None;
        },
    };
    let s3 = match take_lit_exec(s2, ",\"port\":") {
        Some(x) => x,
        None => {
            return None;
        },
    };
    let (port, s4) = match take_opt_number_exec(s3, 2147483647i64) {
        Some(x) => x,
        None => {
            return None;
        },
    };
    let s5 = match take_lit_exec(s4, ",\"token\":") {
        Some(x) => x,
        None => {
            return None;
        },
    };
    let (token, s6) = match take_opt_string_exec(s5) {
        Some(x) => x,
        None => {
            return None;
        },
    };
    let s7 = match take_lit_exec(s6, ",\"startTime\":") {
        Some(x) => x,
        None => {
            return None;
        },
    };
    let (start_time, s8) = match take_number_exec(s7, 9223372036854775807i64) {
        Some(x) => x,
        None => {
            return None;
        },
    };
    let s9 = match take_lit_exec(s8, "}") {
        Some(x) => x,
        None => {
            return None;
        },
    };
    if s9.unicode_len() != 0 {
        return None;
    }
    let port_narrow: Option<i32> = match port {
        Some(p) => Some(p as i32),
        None => None,
    };
    Some(PidDescriptor { pid, port: port_narrow, token, start_time })
}

/// Parses the text of a client descriptor record; `None` when the text is
/// malformed.
pub fn parse_client_descriptor(s: &str) -> (r: Option<ClientDescriptor>)
    ensures
        match r {
            Some(d) => spec_parse_client_descriptor(s@) == Some(d@) && d@.wf(),
            None => spec_parse_client_descriptor(s@) is None,
        },
{
    let s1 = match take_lit_exec(s, "{\"loginOption\":{\"mode\":") {
        Some(x) => x,
        None => {
            return None;
        },
    };
    let (mode_s, s2) = match take_string_exec(s1) {
        Some(x) => x,
        None => {
            return None;
        },
    };
    let s3 = match take_lit_exec(s2, ",\"remote\":") {
        Some(x) => x,
        None => {
            return None;
        },
    };
    let (remote, s4) = match take_remote_exec(s3) {
        Some(x) => x,
        None => {
            return None;
        },
    };
    let s5 = match take_lit_exec(s4, "}}") {
        Some(x) => x,
        None => {
            return None;
        },
    };
    if s5.unicode_len() != 0 {
        return None;
    }
    if chars_eq(mode_s.as_str(), "remote") {
        match remote {
            Some(ra) => Some(ClientDescriptor { mode: LoginMode::Remote, remote: Some(ra) }),
            None => None,
        }
    } else {
        Some(ClientDescriptor { mode: LoginMode::Local, remote })
    }
}

/// Renders the text of a process descriptor record, as a fixture writes
/// it.
pub fn render_pid_descriptor(d: &PidDescriptor) -> (r: String)
    requires
        d@.pid >= 0,
        d@.start_time >= 0,
        match d@.port {
            Some(p) => p >= 0,
            None => true,
        },
    ensures
        r@ == spec_render_pid_descriptor(d@),
{
    let mut out = String::from_str("{\"pid\":");
    let pid_s = i64_to_string(d.pid);
    out.append(pid_s.as_str());
    out.append(",\"port\":");
    match d.port {
        Some(p) => {
            let port_s = u64_to_string(p as u64);
            out.append(port_s.as_str());
        },
        None => {
            out.append("null");
        },
    }
    out.append(",\"token\":");
    match &d.token {
        Some(t) => {
            out.append("\"");
            out.append(t.as_str());
            out.append("\"");
        },
        None => {
            out.append("null");
        },
    }
    out.append(",\"startTime\":");
    let st_s = i64_to_string(d.start_time);
    out.append(st_s.as_str());
    out.append("}");
    proof {
        reveal_strlit("\"");
        assert("\""@ =~= seq!['"']);
        assert(out@ =~= spec_render_pid_descriptor(d@));
    }
    out
}

/// Renders the text of a client descriptor record, as a fixture writes
/// it.
pub fn render_client_descriptor(d: &ClientDescriptor) -> (r: String)
    ensures
        r@ == spec_render_client_descriptor(d@),
{
    let mut out = String::from_str("{\"loginOption\":{\"mode\":");
    out.append("\"");
    match d.mode {
        LoginMode::Local => {
            out.append("local");
        },
        LoginMode::Remote => {
            out.append("remote");
        },
    }
    out.append("\"");
    out.append(",\"remote\":");
    match &d.remote {
        Some(ra) => {
            out.append("{\"host\":");
            out.append("\"");
            out.append(ra.host.as_str());
            out.append("\"");
            out.append(",\"token\":");
            out.append("\"");
            out.append(ra.token.as_str());
            out.append("\"");
            out.append("}");
        },
        None => {
            out.append("null");
        },
    }
    out.append("}}");
    proof {
        reveal_strlit("\"");
        assert("\""@ =~= seq!['"']);
        assert(out@ =~= spec_render_client_descriptor(d@));
    }
    out
}

} // verus!
