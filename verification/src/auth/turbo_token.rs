//! The `TURBO_TOKEN` check: which requests the server lets through.
use vstd::prelude::*;
use subtle::ConstantTimeEq;
use vstd::string::StrSliceExecFns;

use crate::text::{chars_of, opt_str_view};

verus! {

/// Whether `c` has the Unicode `White_Space` property, as `char::is_whitespace` decides.
pub open spec fn is_whitespace(c: char) -> bool {
    let u = c as u32;
    ||| 9 <= u <= 13
    ||| u == 32
    ||| u == 0x85
    ||| u == 0xA0
    ||| u == 0x1680
    ||| 0x2000 <= u <= 0x200A
    ||| u == 0x2028
    ||| u == 0x2029
    ||| u == 0x202F
    ||| u == 0x205F
    ||| u == 0x3000
}

/// `s` without its leading whitespace, as `str::trim_start` gives it.
pub open spec fn trim_start(s: Seq<char>) -> Seq<char>
    decreases s.len(),
{
    if s.len() > 0 && is_whitespace(s[0]) {
        trim_start(s.drop_first())
    } else {
        s
    }
}

/// The code of `c`, with an ASCII capital letter turned into its small letter.
pub open spec fn ascii_lower_code(c: char) -> u32 {
    if 65 <= (c as u32) <= 90 {
        ((c as u32) + 32) as u32
    } else {
        c as u32
    }
}

/// The codes of `bearer`.
pub open spec fn bearer_codes() -> Seq<u32> {
    seq![98u32, 101u32, 97u32, 114u32, 101u32, 114u32]
}

/// Whether `s` is `Bearer` in any mix of ASCII letter cases, as
/// `str::eq_ignore_ascii_case` compares it.
pub open spec fn is_bearer_scheme(s: Seq<char>) -> bool {
    &&& s.len() == 6
    &&& forall|i: int| 0 <= i < 6 ==> ascii_lower_code(#[trigger] s[i]) == bearer_codes()[i]
}

/// The index of the first space in `s`, if it has one.
pub open spec fn first_space(s: Seq<char>) -> Option<int> {
    if exists|i: int| 0 <= i < s.len() && s[i] == ' ' {
        Some(
            choose|i: int|
                0 <= i < s.len() && s[i] == ' ' && forall|j: int| 0 <= j < i ==> s[j] != ' ',
        )
    } else {
        None
    }
}

/// The token of an `Authorization` header value: the text after the first
/// space, without leading whitespace, when the text before that space is the
/// `Bearer` scheme in any ASCII case and the token is not empty.
pub open spec fn bearer_token(header: Seq<char>) -> Option<Seq<char>> {
    match first_space(header) {
        None => None,
        Some(i) => if is_bearer_scheme(header.take(i)) && trim_start(header.skip(i + 1)).len()
            > 0 {
            Some(trim_start(header.skip(i + 1)))
        } else {
            None
        },
    }
}

proof fn lemma_first_space(s: Seq<char>, i: int)
    requires
        0 <= i < s.len(),
        s[i] == ' ',
        forall|j: int| 0 <= j < i ==> s[j] != ' ',
    ensures
        first_space(s) == Some(i),
{
    let k = choose|k: int|
        0 <= k < s.len() && s[k] == ' ' && forall|j: int| 0 <= j < k ==> s[j] != ' ';
    assert(0 <= k < s.len() && s[k] == ' ' && forall|j: int| 0 <= j < k ==> s[j] != ' ');
    if k < i {
        assert(s[k] != ' ');
    }
    if i < k {
        assert(s[i] != ' ');
    }
}

fn exec_is_whitespace(c: char) -> (r: bool)
    ensures
        r == is_whitespace(c),
{
    let u = c as u32;
    (9 <= u && u <= 13) || u == 32 || u == 0x85 || u == 0xA0 || u == 0x1680 || (0x2000 <= u
        && u <= 0x200A) || u == 0x2028 || u == 0x2029 || u == 0x202F || u == 0x205F || u == 0x3000
}

fn exec_ascii_lower(c: char) -> (r: u32)
    ensures
        r == ascii_lower_code(c),
{
    let u = c as u32;
    if 65 <= u && u <= 90 {
        u + 32
    } else {
        u
    }
}

/// Extracts the token from an `Authorization` header value.
/// Returns `None` when the scheme is not Bearer or the token is empty.
pub fn parse_bearer_token(header_value: &str) -> (r: Option<&str>)
    ensures
        match r {
            Some(token) => bearer_token(header_value@) == Some(token@),
            None => bearer_token(header_value@) is None,
        },
{
    let chars = chars_of(header_value);
    let n = chars.len();
    let ghost h = header_value@;

    let mut i: usize = 0;
    while i < n && chars[i] != ' '
        invariant
            chars@ == h,
            h == header_value@,
            n == chars.len(),
            i <= n,
            forall|j: int| 0 <= j < i ==> h[j] != ' ',
        decreases n - i,
    {
        i = i + 1;
    }
    if i == n {
        assert(first_space(h) is None) by {
            if exists|k: int| 0 <= k < h.len() && h[k] == ' ' {
                let k = choose|k: int| 0 <= k < h.len() && h[k] == ' ';
                assert(h[k] != ' ');
            }
        }
        return None;
    }
    proof {
        lemma_first_space(h, i as int);
    }

    // RFC 7235 defines the auth scheme as case-insensitive.
    let ghost scheme = h.take(i as int);
    if i != 6 {
        return None;
    }
    let expected: [u32; 6] = [98, 101, 97, 114, 101, 114];
    let mut k: usize = 0;
    while k < 6
        invariant
            chars@ == h,
            h == header_value@,
            n == chars.len(),
            i == 6,
            i < n,
            scheme == h.take(6),
            first_space(h) == Some(6int),
            k <= 6,
            expected@ == seq![98u32, 101u32, 97u32, 114u32, 101u32, 114u32],
            forall|j: int| 0 <= j < k ==> ascii_lower_code(#[trigger] scheme[j]) == bearer_codes()[j],
        decreases 6 - k,
    {
        if exec_ascii_lower(chars[k]) != expected[k] {
            assert(ascii_lower_code(scheme[k as int]) != bearer_codes()[k as int]);
            return None;
        }
        k = k + 1;
    }
    assert(is_bearer_scheme(scheme));

    let mut start: usize = i + 1;
    assert(h.skip(start as int) =~= h.skip(i + 1));
    while start < n && exec_is_whitespace(chars[start])
        invariant
            chars@ == h,
            h == header_value@,
            n == chars.len(),
            i + 1 <= start <= n,
            trim_start(h.skip(i + 1)) == trim_start(h.skip(start as int)),
        decreases n - start,
    {
        assert(h.skip(start as int).drop_first() =~= h.skip(start + 1));
        start = start + 1;
    }
    assert(trim_start(h.skip(start as int)) == h.skip(start as int));
    if start == n {
        assert(h.skip(start as int).len() == 0);
        return None;
    }
    let token = header_value.substring_char(start, n);
    assert(token@ =~= h.skip(start as int));
    Some(token)
}

/// `subtle`'s `ConstantTimeEq::ct_eq` on two byte slices, turned into a
/// `bool` through `From<Choice>`: true exactly when the slices have the same
/// length and the same bytes. The comparison returns early only on a length
/// mismatch.
#[verifier::external_body]
fn constant_time_eq(a: &[u8], b: &[u8]) -> (r: bool)
    ensures
        r == (a@ == b@),
{
    a.ct_eq(b).into()
}

/// Compares a token against the configured one in constant time.
/// A plain `==` stops at the first byte that differs, so its running time
/// tells an attacker how much of a guess was correct.
///
/// The token length is not treated as a secret: `ct_eq` returns early when
/// the lengths differ, which is the usual trade for this kind of check.
pub fn tokens_match(provided: &str, expected: &str) -> (r: bool)
    ensures
        r == (provided@ == expected@),
{
    proof {
        vstd::utf8::encode_utf8_decode_utf8(provided@);
        vstd::utf8::encode_utf8_decode_utf8(expected@);
    }
    constant_time_eq(provided.as_bytes(), expected.as_bytes())
}

/// What the token check decided about an incoming request.
#[derive(Debug, Clone, Copy, PartialEq, Eq, Structural)]
pub enum AuthOutcome {
    /// No `TURBO_TOKEN` is configured, so the server accepts every request.
    NoTokenConfigured,
    Valid,
    /// The `Authorization` header is absent, unreadable, or holds no Bearer token.
    MissingHeader,
    InvalidToken,
}

/// The decision for a request, given the configured token and the request's
/// `Authorization` header value.
pub open spec fn auth_outcome(configured: Option<Seq<char>>, header: Option<Seq<char>>) -> AuthOutcome {
    match configured {
        None => AuthOutcome::NoTokenConfigured,
        Some(expected) => {
            let provided = match header {
                Some(h) => bearer_token(h),
                None => None,
            };
            match provided {
                None => AuthOutcome::MissingHeader,
                Some(token) => if token == expected {
                    AuthOutcome::Valid
                } else {
                    AuthOutcome::InvalidToken
                },
            }
        },
    }
}

pub open spec fn admits(outcome: AuthOutcome) -> bool {
    outcome == AuthOutcome::NoTokenConfigured || outcome == AuthOutcome::Valid
}

/// The value of the `WWW-Authenticate` header on a rejection.
pub const AUTH_CHALLENGE: &'static str = "Bearer";

/// Decides whether a request may pass: `configured` is the server's
/// `TURBO_TOKEN`, `authorization` the request's `Authorization` header value
/// when it has one that reads as text.
pub fn check_turbo_token(configured: Option<&str>, authorization: Option<&str>) -> (r: AuthOutcome)
    ensures
        r == auth_outcome(opt_str_view(configured), opt_str_view(authorization)),
{
    match configured {
        None => AuthOutcome::NoTokenConfigured,
        Some(expected) => {
            let provided = match authorization {
                Some(value) => parse_bearer_token(value),
                None => None,
            };
            match provided {
                None => AuthOutcome::MissingHeader,
                Some(token) => if tokens_match(token, expected) {
                    AuthOutcome::Valid
                } else {
                    AuthOutcome::InvalidToken
                },
            }
        },
    }
}

impl AuthOutcome {
    /// Whether the request goes on to its handler.
    pub fn lets_through(&self) -> (r: bool)
        ensures
            r == admits(*self),
    {
        match self {
            AuthOutcome::NoTokenConfigured | AuthOutcome::Valid => true,
            _ => false,
        }
    }

    /// The HTTP status of the answer to a rejected request: `401 Unauthorized`;
    /// none for a request that goes on to its handler.
    pub fn rejection_status(&self) -> (r: Option<u16>)
        ensures
            match self {
                AuthOutcome::MissingHeader | AuthOutcome::InvalidToken => r == Some(401u16),
                _ => r is None,
            },
            r is None <==> admits(*self),
    {
        match self {
            AuthOutcome::MissingHeader | AuthOutcome::InvalidToken => Some(401),
            _ => None,
        }
    }

    /// The error text of the `401 Unauthorized` answer, for a rejected request.
    pub fn rejection(&self) -> (r: Option<&'static str>)
        ensures
            match self {
                AuthOutcome::MissingHeader => r matches Some(m) && m@
                    == "Missing or malformed Authorization header"@,
                AuthOutcome::InvalidToken => r matches Some(m) && m@ == "Invalid TURBO_TOKEN"@,
                _ => r is None,
            },
    {
        match self {
            AuthOutcome::MissingHeader => Some("Missing or malformed Authorization header"),
            AuthOutcome::InvalidToken => Some("Invalid TURBO_TOKEN"),
            _ => None,
        }
    }
}

/// Without a configured token, the server lets every request through.
pub proof fn lemma_no_token_admits_every_request(header: Option<Seq<char>>)
    ensures
        admits(auth_outcome(None, header)),
{
}

/// With a configured token, a request passes exactly when its header holds a
/// Bearer token equal to the configured one, byte for byte.
pub proof fn lemma_admits_exactly_the_configured_token(
    expected: Seq<char>,
    header: Option<Seq<char>>,
)
    ensures
        admits(auth_outcome(Some(expected), header)) <==> (header matches Some(h) && bearer_token(h)
            == Some(expected)),
{
}

/// A request that sends `Bearer <token>` with the configured token passes,
/// whatever that token holds after its first character.
pub proof fn lemma_bearer_header_with_configured_token_passes(expected: Seq<char>)
    requires
        expected.len() > 0,
        !is_whitespace(expected[0]),
    ensures
        auth_outcome(Some(expected), Some("Bearer "@ + expected)) == AuthOutcome::Valid,
{
    reveal_strlit("Bearer ");
    let h = "Bearer "@ + expected;
    assert(h[6] == ' ');
    assert forall|j: int| 0 <= j < 6 implies h[j] != ' ' by {
        assert(h[j] == "Bearer "@[j]);
    }
    lemma_first_space(h, 6);
    assert(h.take(6) =~= seq!['B', 'e', 'a', 'r', 'e', 'r']);
    assert(is_bearer_scheme(h.take(6)));
    assert(h.skip(7) =~= expected);
    assert(trim_start(expected) == expected);
}

} // verus!
