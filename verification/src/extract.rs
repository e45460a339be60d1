//! Identity extraction: locating the candidate token in a request.
//!
//! A request may carry a token in the `Authorization` header (`Bearer
//! <token>`, case-sensitive scheme, single space) or in the `auth_token`
//! cookie among the semicolon-delimited pairs of the `Cookie` header.  The
//! header is consulted first; a missing or unparsable header falls through
//! to the cookie (the permissive variant).  When neither yields a candidate
//! the request fails with a missing-credential error before any handler
//! runs.  Cookie pairs are trimmed of ASCII whitespace before matching.

use vstd::prelude::*;
use crate::crypto;
use crate::errors::AppError;
use crate::errors::AppResult;
use crate::token::AuthService;
use crate::token::Claims;

verus! {

/// ASCII whitespace, as trimmed around cookie pairs.
pub open spec fn is_wspace(c: char) -> bool {
    c == ' ' || c == '\t' || c == '\n' || c == '\r' || c == '\u{0C}'
}

/// `s` with leading ASCII whitespace removed.
pub open spec fn trim_front(s: Seq<char>) -> Seq<char>
    decreases s.len(),
{
    if s.len() > 0 && is_wspace(s[0]) {
        trim_front(s.drop_first())
    } else {
        s
    }
}

/// `s` with trailing ASCII whitespace removed.
pub open spec fn trim_back(s: Seq<char>) -> Seq<char>
    decreases s.len(),
{
    if s.len() > 0 && is_wspace(s[s.len() - 1]) {
        trim_back(s.drop_last())
    } else {
        s
    }
}

/// `s` with both leading and trailing ASCII whitespace removed.
pub open spec fn trimmed(s: Seq<char>) -> Seq<char> {
    trim_back(trim_front(s))
}

/// The token carried by an `Authorization` header value: the remainder
/// after an exact `Bearer ` prefix, or nothing.
pub open spec fn bearer_token_of(h: Seq<char>) -> Option<Seq<char>> {
    if h.len() >= 7 && h.subrange(0, 7) == "Bearer "@ {
        Some(h.subrange(7, h.len() as int))
    } else {
        None
    }
}

/// The value of one cookie pair when, after trimming, it reads exactly
/// `auth_token=<value>` with a single `=`; nothing otherwise.
pub open spec fn seg_auth_value(seg: Seq<char>) -> Option<Seq<char>> {
    let t = trimmed(seg);
    if t.len() >= 11 && t.subrange(0, 10) == "auth_token"@ && t[10] == '='
        && (forall|i: int| 11 <= i < t.len() ==> t[i] != '=') {
        Some(t.subrange(11, t.len() as int))
    } else {
        None
    }
}

/// Number of characters before the first `;` of `s` (all of `s` when none).
pub open spec fn semi_index(s: Seq<char>) -> nat
    decreases s.len(),
{
    if s.len() == 0 {
        0
    } else if s[0] == ';' {
        0
    } else {
        1 + semi_index(s.drop_first())
    }
}

/// The `auth_token` value of a `Cookie` header: the first
/// semicolon-delimited pair that matches, scanned left to right.
pub open spec fn cookie_auth_token_of(s: Seq<char>) -> Option<Seq<char>>
    decreases s.len(),
{
    let k = semi_index(s) as int;
    if k >= s.len() {
        seg_auth_value(s)
    } else {
        let found = seg_auth_value(s.subrange(0, k));
        if found is Some {
            found
        } else {
            cookie_auth_token_of(s.subrange(k + 1, s.len() as int))
        }
    }
}

/// View of an optional header value.
pub open spec fn opt_str_view(o: Option<&str>) -> Option<Seq<char>> {
    match o {
        Some(s) => Some(s@),
        None => None,
    }
}

/// The candidate token of a request, by the extraction precedence: a
/// well-formed bearer header wins; otherwise the `auth_token` cookie;
/// otherwise nothing.
pub open spec fn extracted_token(
    auth: Option<Seq<char>>,
    cookie: Option<Seq<char>>,
) -> Option<Seq<char>> {
    let from_header = match auth {
        Some(h) => bearer_token_of(h),
        None => None,
    };
    match from_header {
        Some(t) => Some(t),
        None => match cookie {
            Some(c) => cookie_auth_token_of(c),
            None => None,
        },
    }
}

/// Law: when the `Authorization` header carries a well-formed bearer
/// token, that token is the extracted candidate whatever the `Cookie`
/// header holds — an unrelated or invalid cookie cannot override it.
pub proof fn lemma_header_wins(
    h: Seq<char>,
    c1: Option<Seq<char>>,
    c2: Option<Seq<char>>,
)
    requires
        bearer_token_of(h) is Some,
    ensures
        extracted_token(Some(h), c1) == bearer_token_of(h),
        extracted_token(Some(h), c1) == extracted_token(Some(h), c2),
{
}

/// Law: without an `Authorization` header the `auth_token` cookie value,
/// when present, is the extracted candidate; a malformed header value
/// (no `Bearer ` prefix) falls through to the cookie in the same way.
pub proof fn lemma_cookie_fallback(h: Option<Seq<char>>, c: Seq<char>)
    requires
        h matches Some(hv) ==> bearer_token_of(hv) is None,
    ensures
        extracted_token(h, Some(c)) == cookie_auth_token_of(c),
{
}

proof fn lemma_trim_front_at(s: Seq<char>, a: int)
    requires
        0 <= a <= s.len(),
        forall|i: int| 0 <= i < a ==> is_wspace(s[i]),
        a == s.len() || !is_wspace(s[a]),
    ensures
        trim_front(s) == s.subrange(a, s.len() as int),
    decreases a,
{
    if a == 0 {
        assert(s.subrange(0, s.len() as int) =~= s);
    } else {
        let d = s.drop_first();
        assert(forall|i: int| 0 <= i < a - 1 ==> is_wspace(#[trigger] d[i])) by {
            assert(forall|i: int| 0 <= i < a - 1 ==> #[trigger] d[i] == s[i + 1]);
        }
        lemma_trim_front_at(d, a - 1);
        assert(d.subrange(a - 1, d.len() as int) =~= s.subrange(a, s.len() as int));
    }
}

proof fn lemma_trim_back_at(s: Seq<char>, b: int)
    requires
        0 <= b <= s.len(),
        forall|i: int| b <= i < s.len() ==> is_wspace(s[i]),
        b == 0 || !is_wspace(s[b - 1]),
    ensures
        trim_back(s) == s.subrange(0, b),
    decreases s.len() - b,
{
    if b == s.len() {
        assert(s.subrange(0, b) =~= s);
    } else {
        let d = s.drop_last();
        assert(is_wspace(s[s.len() - 1]));
        assert(forall|i: int| b <= i < d.len() ==> is_wspace(#[trigger] d[i])) by {
            assert(forall|i: int| 0 <= i < d.len() ==> #[trigger] d[i] == s[i]);
        }
        lemma_trim_back_at(d, b);
        assert(d.subrange(0, b) =~= s.subrange(0, b));
    }
}

proof fn lemma_semi_index_at(s: Seq<char>, m: int)
    requires
        0 <= m <= s.len(),
        forall|i: int| 0 <= i < m ==> s[i] != ';',
        m == s.len() || s[m] == ';',
    ensures
        semi_index(s) == m,
    decreases m,
{
    if m == 0 {
    } else {
        let d = s.drop_first();
        assert(forall|i: int| 0 <= i < m - 1 ==> #[trigger] d[i] != ';') by {
            assert(forall|i: int| 0 <= i < m - 1 ==> #[trigger] d[i] == s[i + 1]);
        }
        assert(m - 1 == d.len() || d[m - 1] == ';');
        lemma_semi_index_at(d, m - 1);
    }
}

/// Whether `c` is ASCII whitespace.
fn is_wspace_char(c: char) -> (b: bool)
    ensures
        b == is_wspace(c),
{
    c == ' ' || c == '\t' || c == '\n' || c == '\r' || c == '\u{0C}'
}

/// Decide whether the cookie pair `c[start..k]` is an `auth_token` pair
/// and hand its value out.
#[verifier::loop_isolation(false)]
fn scan_segment(c: &str, start: usize, k: usize) -> (r: Option<String>)
    requires
        start <= k <= c@.len(),
    ensures
        r matches Some(t) ==> seg_auth_value(c@.subrange(start as int, k as int)) == Some(t@),
        r is None ==> seg_auth_value(c@.subrange(start as int, k as int)) is None,
{
    let ghost seg = c@.subrange(start as int, k as int);
    let mut a = start;
    while a < k && is_wspace_char(c.get_char(a))
        invariant
            start <= a <= k <= c@.len(),
            forall|i: int| start <= i < a ==> is_wspace(c@[i]),
        decreases k - a,
    {
        a = a + 1;
    }
    let mut b = k;
    while b > a && is_wspace_char(c.get_char(b - 1))
        invariant
            start <= a <= b <= k <= c@.len(),
            forall|i: int| b <= i < k ==> is_wspace(c@[i]),
        decreases b,
    {
        b = b - 1;
    }
    proof {
        assert(forall|i: int| 0 <= i < a - start ==> is_wspace(#[trigger] seg[i])) by {
            assert(forall|i: int| 0 <= i < a - start ==> #[trigger] seg[i] == c@[start + i]);
        }
        lemma_trim_front_at(seg, a - start);
        let tf = seg.subrange(a - start, seg.len() as int);
        assert(forall|i: int| b - a <= i < tf.len() ==> is_wspace(#[trigger] tf[i])) by {
            assert(forall|i: int| 0 <= i < tf.len() ==> #[trigger] tf[i] == c@[a + i]);
        }
        assert(b - a == 0 || !is_wspace(tf[b - a - 1]));
        lemma_trim_back_at(tf, b - a);
        assert(trimmed(seg) =~= c@.subrange(a as int, b as int));
    }
    let ghost t = trimmed(seg);
    assert(t == c@.subrange(a as int, b as int));
    proof {
        reveal_strlit("auth_token");
    }
    if b - a < 11 {
        return None;
    }
    let mut j: usize = 0;
    while j < 10
        invariant
            0 <= j <= 10,
            a + 11 <= b <= c@.len(),
            t == c@.subrange(a as int, b as int),
            "auth_token"@.len() == 10,
            forall|i: int| 0 <= i < j ==> c@[a + i] == "auth_token"@[i],
        decreases 10 - j,
    {
        if c.get_char(a + j) != "auth_token".get_char(j) {
            proof {
                assert(t.subrange(0, 10)[j as int] != "auth_token"@[j as int]);
            }
            return None;
        }
        j = j + 1;
    }
    proof {
        assert(t.subrange(0, 10) =~= "auth_token"@);
    }
    if c.get_char(a + 10) != '=' {
        return None;
    }
    let mut i = a + 11;
    while i < b
        invariant
            a + 11 <= i <= b <= c@.len(),
            t == c@.subrange(a as int, b as int),
            forall|m: int| a + 11 <= m < i ==> c@[m] != '=',
        decreases b - i,
    {
        if c.get_char(i) == '=' {
            proof {
                assert(t[i - a] == '=');
            }
            return None;
        }
        i = i + 1;
    }
    proof {
        assert(forall|m: int| 11 <= m < t.len() ==> #[trigger] t[m] != '=') by {
            assert(forall|m: int| 11 <= m < t.len() ==> #[trigger] t[m] == c@[a + m]);
        }
        assert(seg_auth_value(seg) == Some(t.subrange(11, t.len() as int)));
        assert(t.subrange(11, t.len() as int) =~= c@.subrange(a + 11, b as int));
    }
    Some(c.substring_char(a + 11, b).to_owned())
}

/// The `auth_token` value among the semicolon-delimited pairs of a
/// `Cookie` header value, scanned left to right.
#[verifier::loop_isolation(false)]
pub fn cookie_auth_token(c: &str) -> (r: Option<String>)
    ensures
        r matches Some(t) ==> cookie_auth_token_of(c@) == Some(t@),
        r is None ==> cookie_auth_token_of(c@) is None,
{
    let len = c.unicode_len();
    let mut start: usize = 0;
    proof {
        assert(c@.subrange(0, len as int) =~= c@);
    }
    loop
        invariant
            0 <= start <= len,
            len == c@.len(),
            cookie_auth_token_of(c@)
                == cookie_auth_token_of(c@.subrange(start as int, len as int)),
        decreases len - start + 1,
    {
        let ghost rem = c@.subrange(start as int, len as int);
        let mut k = start;
        while k < len && c.get_char(k) != ';'
            invariant
                start <= k <= len,
                len == c@.len(),
                forall|i: int| start <= i < k ==> c@[i] != ';',
            decreases len - k,
        {
            k = k + 1;
        }
        proof {
            assert(forall|i: int| 0 <= i < k - start ==> #[trigger] rem[i] != ';') by {
                assert(forall|i: int| 0 <= i < rem.len() ==> #[trigger] rem[i] == c@[start + i]);
            }
            assert(k - start == rem.len() || rem[k - start] == ';');
            lemma_semi_index_at(rem, k - start);
            assert(rem.subrange(0, k - start) =~= c@.subrange(start as int, k as int));
        }
        let found = scan_segment(c, start, k);
        if k == len {
            proof {
                assert(rem =~= c@.subrange(start as int, k as int));
            }
            return found;
        }
        match found {
            Some(v) => {
                return Some(v);
            },
            None => {
                proof {
                    assert(rem.subrange(k - start + 1, rem.len() as int)
                        =~= c@.subrange(k + 1, len as int));
                }
                start = k + 1;
            },
        }
    }
}

/// The token after the `Bearer ` prefix of an `Authorization` header
/// value, when the prefix is exactly there.
#[verifier::loop_isolation(false)]
pub fn bearer_token(h: &str) -> (r: Option<String>)
    ensures
        r matches Some(t) ==> bearer_token_of(h@) == Some(t@),
        r is None ==> bearer_token_of(h@) is None,
{
    proof {
        reveal_strlit("Bearer ");
    }
    let len = h.unicode_len();
    if len < 7 {
        return None;
    }
    let mut j: usize = 0;
    while j < 7
        invariant
            0 <= j <= 7,
            7 <= len == h@.len(),
            "Bearer "@.len() == 7,
            forall|i: int| 0 <= i < j ==> h@[i] == "Bearer "@[i],
        decreases 7 - j,
    {
        if h.get_char(j) != "Bearer ".get_char(j) {
            proof {
                assert(h@.subrange(0, 7)[j as int] != "Bearer "@[j as int]);
            }
            return None;
        }
        j = j + 1;
    }
    proof {
        assert(h@.subrange(0, 7) =~= "Bearer "@);
    }
    Some(h.substring_char(7, len).to_owned())
}

/// Locate the candidate token of a request by the extraction precedence,
/// or fail with the missing-credential error.
pub fn extract_token(auth: Option<&str>, cookie: Option<&str>) -> (r: AppResult<String>)
    ensures
        r matches Ok(t) ==> extracted_token(opt_str_view(auth), opt_str_view(cookie))
            == Some(t@),
        r matches Err(e) ==> extracted_token(opt_str_view(auth), opt_str_view(cookie))
            is None && e is Auth,
{
    if let Some(h) = auth {
        if let Some(t) = bearer_token(h) {
            return Ok(t);
        }
    }
    if let Some(cs) = cookie {
        if let Some(t) = cookie_auth_token(cs) {
            return Ok(t);
        }
    }
    Err(AppError::Auth("Missing authentication token".to_owned()))
}

/// Authenticate a request as of the instant `now`: extract the candidate
/// token and verify it.  On success the verified claim set is the
/// request's identity; an absent candidate and an unverifiable candidate
/// fail with distinct error categories (`Auth` and `Jwt`), both of which
/// map to a 401 response.
pub fn authenticate_request_at(
    service: &AuthService,
    auth: Option<&str>,
    cookie: Option<&str>,
    now: u64,
) -> (r: AppResult<Claims>)
    ensures
        extracted_token(opt_str_view(auth), opt_str_view(cookie)) is None
            ==> (r matches Err(e) && e is Auth),
        r matches Ok(c) ==> extracted_token(opt_str_view(auth), opt_str_view(cookie))
            matches Some(t)
            && crypto::jwt_claims(t, service.spec_secret())
                == Some((c.sub@, c.email@, c.iat as int, c.exp as int))
            && c.exp > now,
        (extracted_token(opt_str_view(auth), opt_str_view(cookie)) matches Some(t)
            && crypto::jwt_claims(t, service.spec_secret()) matches Some(cl)
            && cl.3 > now)
            ==> r is Ok,
        (extracted_token(opt_str_view(auth), opt_str_view(cookie)) matches Some(t)
            && crypto::jwt_claims(t, service.spec_secret()) is None)
            ==> (r matches Err(e) && e is Jwt),
        (extracted_token(opt_str_view(auth), opt_str_view(cookie)) matches Some(t)
            && crypto::jwt_claims(t, service.spec_secret()) matches Some(cl)
            && cl.3 <= now)
            ==> (r matches Err(e) && e is Jwt),
{
    let token = match extract_token(auth, cookie) {
        Ok(t) => t,
        Err(e) => {
            return Err(e);
        },
    };
    service.validate_token_at(token.as_str(), now)
}

/// Authenticate a request as of the current instant.
pub fn authenticate_request(
    service: &AuthService,
    auth: Option<&str>,
    cookie: Option<&str>,
) -> (r: AppResult<Claims>)
    ensures
        extracted_token(opt_str_view(auth), opt_str_view(cookie)) is None
            ==> (r matches Err(e) && e is Auth),
        r matches Ok(c) ==> extracted_token(opt_str_view(auth), opt_str_view(cookie))
            matches Some(t)
            && crypto::jwt_claims(t, service.spec_secret())
                == Some((c.sub@, c.email@, c.iat as int, c.exp as int)),
        (extracted_token(opt_str_view(auth), opt_str_view(cookie)) matches Some(t)
            && crypto::jwt_claims(t, service.spec_secret()) is None)
            ==> (r matches Err(e) && e is Jwt),
{
    let token = match extract_token(auth, cookie) {
        Ok(t) => t,
        Err(e) => {
            return Err(e);
        },
    };
    service.validate_token(token.as_str())
}

} // verus!
