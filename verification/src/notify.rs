//! Derivation of the notification URLs and handling of ping responses.
//!
//! A monitored run announces itself under `<base>/<slug>/`: the start ping
//! goes to `<base>/<slug>/start?create=1` and the end ping to
//! `<base>/<slug>/<exit code>`. The join is slash-normalized: whether or
//! not the configured base URL ends in a slash, exactly one `/` separates
//! the base from the slug and the slug from the following segment.

use vstd::prelude::*;
use vstd::string::{StrSliceExecFns, StringExecFns};

verus! {

/// A character that may not stand in a URL path segment such as the slug:
/// it would end the segment, start the query, or start the fragment.
pub open spec fn segment_breaking_char(c: char) -> bool {
    c == '/' || c == '?' || c == '#'
}

/// A slug names one monitored job: it must be non-empty and form a single
/// URL path segment.
pub open spec fn slug_ok(s: Seq<char>) -> bool {
    s.len() > 0 && (forall|i: int| 0 <= i < s.len() ==> !segment_breaking_char(#[trigger] s[i]))
}

/// Runtime check for [`slug_ok`], for callers that take a slug from input.
pub fn is_valid_slug(s: &str) -> (r: bool)
    ensures
        r == slug_ok(s@),
{
    let n = s.unicode_len();
    if n == 0 {
        return false;
    }
    let mut i: usize = 0;
    while i < n
        invariant
            n == s@.len(),
            0 <= i <= n,
            forall|j: int| 0 <= j < i ==> !segment_breaking_char(#[trigger] s@[j]),
        decreases n - i,
    {
        let c = s.get_char(i);
        if c == '/' || c == '?' || c == '#' {
            return false;
        }
        i = i + 1;
    }
    true
}

/// `s`, ending in `/`: unchanged if it already does, with one `/` appended
/// otherwise.
pub open spec fn with_trailing_slash(s: Seq<char>) -> Seq<char> {
    if s.len() > 0 && s.last() == '/' {
        s
    } else {
        s.push('/')
    }
}

/// The effective notification base for one job: the base URL and the slug,
/// each made to end in exactly the one `/` that marks it as a directory.
pub open spec fn spec_notify_base(base: Seq<char>, slug: Seq<char>) -> Seq<char> {
    with_trailing_slash(base) + slug + seq!['/']
}

/// Builds `<base>/<slug>/` out of the base URL and the slug.
pub fn notify_base(base: &str, slug: &str) -> (r: String)
    ensures
        r@ == spec_notify_base(base@, slug@),
{
    let n = base.unicode_len();
    let mut r = String::new();
    r.append(base);
    if n == 0 || base.get_char(n - 1) != '/' {
        r.append("/");
    }
    r.append(slug);
    r.append("/");
    proof {
        reveal_strlit("/");
        assert(r@ =~= spec_notify_base(base@, slug@));
    }
    r
}

/// The decimal digit characters, `0` through `9`.
pub open spec fn decimal_digit(d: nat) -> char {
    if d == 0 {
        '0'
    } else if d == 1 {
        '1'
    } else if d == 2 {
        '2'
    } else if d == 3 {
        '3'
    } else if d == 4 {
        '4'
    } else if d == 5 {
        '5'
    } else if d == 6 {
        '6'
    } else if d == 7 {
        '7'
    } else if d == 8 {
        '8'
    } else {
        '9'
    }
}

/// The decimal rendering of a number, most significant digit first, with
/// no leading zero except for the number zero itself.
pub open spec fn spec_decimal(n: nat) -> Seq<char>
    decreases n,
{
    if n < 10 {
        seq![decimal_digit(n)]
    } else {
        spec_decimal(n / 10).push(decimal_digit(n % 10))
    }
}

fn digit_str(d: u8) -> (r: &'static str)
    requires
        d < 10,
    ensures
        r@ =~= seq![decimal_digit(d as nat)],
{
    proof {
        reveal_strlit("0");
        reveal_strlit("1");
        reveal_strlit("2");
        reveal_strlit("3");
        reveal_strlit("4");
        reveal_strlit("5");
        reveal_strlit("6");
        reveal_strlit("7");
        reveal_strlit("8");
        reveal_strlit("9");
    }
    match d {
        0 => "0",
        1 => "1",
        2 => "2",
        3 => "3",
        4 => "4",
        5 => "5",
        6 => "6",
        7 => "7",
        8 => "8",
        _ => "9",
    }
}

/// Renders an exit code in decimal.
pub fn decimal_of_u8(n: u8) -> (r: String)
    ensures
        r@ == spec_decimal(n as nat),
    decreases n,
{
    if n < 10 {
        let mut r = String::new();
        r.append(digit_str(n));
        proof {
            assert(r@ =~= spec_decimal(n as nat));
        }
        r
    } else {
        let mut r = decimal_of_u8(n / 10);
        r.append(digit_str(n % 10));
        proof {
            assert(r@ =~= spec_decimal(n as nat));
        }
        r
    }
}

/// The URL of the start ping: the job's base, the `start` segment, and the
/// query that asks the endpoint to create a missing check.
pub open spec fn spec_start_url(base: Seq<char>, slug: Seq<char>) -> Seq<char> {
    spec_notify_base(base, slug) + "start?create=1"@
}

/// Builds the start-ping URL for one job.
pub fn start_url(base: &str, slug: &str) -> (r: String)
    ensures
        r@ == spec_start_url(base@, slug@),
{
    let mut r = notify_base(base, slug);
    r.append("start?create=1");
    r
}

/// The URL of the end ping: the job's base and the exit code in decimal.
pub open spec fn spec_end_url(base: Seq<char>, slug: Seq<char>, code: u8) -> Seq<char> {
    spec_notify_base(base, slug) + spec_decimal(code as nat)
}

/// Builds the end-ping URL for one job and exit code.
pub fn end_url(base: &str, slug: &str, code: u8) -> (r: String)
    ensures
        r@ == spec_end_url(base@, slug@, code),
{
    let mut r = notify_base(base, slug);
    let digits = decimal_of_u8(code);
    r.append(digits.as_str());
    r
}

/// What one notification call came to: the endpoint was unreachable (a
/// transport error or a timeout), or it answered with a status code and a
/// response body.
#[derive(Clone, Debug)]
pub enum PingResult {
    Unreachable,
    Response { status: u16, body: String },
}

/// A ping counts as accepted exactly when the endpoint answered with a
/// 2xx status.
pub open spec fn ping_accepted(r: PingResult) -> bool {
    r matches PingResult::Response { status, .. } && 200 <= status < 300
}

/// Decides whether a ping's outcome deserves a warning, and with which
/// text. Every outcome short of a 2xx answer is a warning and nothing
/// more: a ping can never fail the run.
pub fn ping_warning(r: &PingResult) -> (w: Option<String>)
    ensures
        w is Some <==> !ping_accepted(*r),
        *r is Unreachable ==> (w matches Some(m) && m@ == "failed to update status"@),
        *r matches PingResult::Response { status: _, body } ==> (!ping_accepted(*r) ==> (w
            matches Some(m) && m@ == "failed to update status: "@ + body@)),
{
    match r {
        PingResult::Unreachable => Some(String::from_str("failed to update status")),
        PingResult::Response { status, body } => {
            if 200 <= *status && *status < 300 {
                None
            } else {
                let mut m = String::from_str("failed to update status: ");
                m.append(body.as_str());
                Some(m)
            }
        },
    }
}

/// The join never doubles and never drops a separator. For a base URL
/// without a trailing slash, the job's base is the base, one `/`, the
/// slug, and one closing `/`; supplying the same base with a trailing
/// slash changes nothing. Since the job's base ends in `/` and neither a
/// valid slug nor a following segment starts with one, exactly one `/`
/// stands between base and slug, and between slug and what follows.
pub proof fn law_single_slash_join(base: Seq<char>, slug: Seq<char>)
    requires
        base.len() == 0 || base.last() != '/',
    ensures
        spec_notify_base(base, slug) =~= base + seq!['/'] + slug + seq!['/'],
        spec_notify_base(base.push('/'), slug) =~= spec_notify_base(base, slug),
        spec_notify_base(base, slug).last() == '/',
        spec_start_url(base, slug) =~= base + seq!['/'] + slug + seq!['/'] + "start?create=1"@,
{
}

} // verus!
