//! What the web server's middleware decides: whether a request carries the
//! admin credentials, whether a client is over its request budget, and how
//! the demo-mode banner goes into a page.

use crate::text::{decode_utf8, find_char_from, find_from, lemma_find_from, str_eq, utf8_text};
use base64::Engine;
use vstd::prelude::*;
use vstd::string::StringSliceAdditionalSpecFns;

verus! {

// ---------------------------------------------------------------------------
// Basic authentication

/// The bytes that base64's `STANDARD` engine decodes `text` to, or `None`
/// when it rejects the text.
pub uninterp spec fn base64_standard_decode(text: Seq<char>) -> Option<Seq<u8>>;

/// `STANDARD.decode(text)`: the decoded bytes, or `None` on an error.
#[verifier::external_body]
fn decode_base64(text: &str) -> (res: Option<Vec<u8>>)
    ensures
        match res {
            Some(b) => base64_standard_decode(text@) == Some(b@),
            None => base64_standard_decode(text@) is None,
        },
{
    base64::engine::general_purpose::STANDARD.decode(text).ok()
}

/// Whether decoded Basic credentials `user:pass` (split at the first colon)
/// are the expected ones.
pub open spec fn credentials_match(text: Seq<char>, user: Seq<char>, pass: Seq<char>) -> bool {
    match find_from(text, ':', 0) {
        Some(c) => text.subrange(0, c) == user && text.subrange(c + 1, text.len() as int) == pass,
        None => false,
    }
}

/// Whether an `Authorization` header value grants admin access: it is
/// `Basic ` followed by base64 of UTF-8 text `user:pass` with the expected
/// user and password.
pub open spec fn basic_auth_ok(authorization: Option<Seq<char>>, user: Seq<char>, pass: Seq<char>) -> bool {
    match authorization {
        None => false,
        Some(a) => {
            &&& a.len() >= 6
            &&& a.subrange(0, 6) == "Basic "@
            &&& match base64_standard_decode(a.subrange(6, a.len() as int)) {
                None => false,
                Some(bytes) => match utf8_text(bytes) {
                    None => false,
                    Some(text) => credentials_match(text, user, pass),
                },
            }
        },
    }
}

/// The Basic Auth gate of the admin area: whether the request's
/// `Authorization` header (if it has a readable one) carries the expected
/// credentials.
pub fn basic_auth_granted(authorization: Option<&str>, expected_user: &str, expected_pass: &str) -> (res: bool)
    ensures
        res == basic_auth_ok(
            match authorization {
                Some(a) => Some(a@),
                None => None,
            },
            expected_user@,
            expected_pass@,
        ),
{
    let auth = match authorization {
        Some(a) => a,
        None => {
            return false;
        },
    };
    let n = auth.unicode_len();
    if n < 6 || !str_eq(auth.substring_char(0, 6), "Basic ") {
        return false;
    }
    let encoded = auth.substring_char(6, n);
    let bytes = match decode_base64(encoded) {
        Some(b) => b,
        None => {
            return false;
        },
    };
    let text = match decode_utf8(bytes.as_slice()) {
        Some(t) => t,
        None => {
            return false;
        },
    };
    let t = text.as_str();
    let tn = t.unicode_len();
    match find_char_from(t, ':', 0) {
        Some(c) => {
            proof {
                lemma_find_from(t@, ':', 0);
            }
            str_eq(t.substring_char(0, c), expected_user) && str_eq(
                t.substring_char(c + 1, tn),
                expected_pass,
            )
        },
        None => false,
    }
}

// ---------------------------------------------------------------------------
// Rate limiting

/// Requests one client may make to the public PDF endpoint per minute.
pub const RATE_LIMIT_PER_MINUTE: u32 = 30;

/// One request's effect on its client's fixed one-minute window: a window
/// that has run out starts again from zero, the request is counted, and it
/// passes while the window holds at most [`RATE_LIMIT_PER_MINUTE`]
/// requests. Returns the new count and whether the request passes.
pub fn rate_limit_step(count: u32, window_expired: bool) -> (res: (u32, bool))
    requires
        window_expired || count < u32::MAX,
    ensures
        res.0 == (if window_expired {
            0
        } else {
            count as int
        }) + 1,
        res.1 == (res.0 <= RATE_LIMIT_PER_MINUTE),
{
    let base = if window_expired {
        0
    } else {
        count
    };
    let next = base + 1;
    (next, next <= RATE_LIMIT_PER_MINUTE)
}

/// The count of a window after `k` requests that all fall into it.
pub open spec fn count_after(k: nat) -> int
    decreases k,
{
    if k == 0 {
        0
    } else {
        count_after((k - 1) as nat) + 1
    }
}

/// Within one window exactly the first [`RATE_LIMIT_PER_MINUTE`] requests
/// pass: the `k`-th request (counting from one) passes iff `k` is at most
/// the limit.
pub proof fn law_rate_limit_window(k: nat)
    requires
        1 <= k < u32::MAX,
    ensures
        count_after(k) == k,
        (count_after(k) <= RATE_LIMIT_PER_MINUTE) == (k <= 30),
    decreases k,
{
    if k > 1 {
        law_rate_limit_window((k - 1) as nat);
    } else {
        assert(count_after(0) == 0);
    }
}

// ---------------------------------------------------------------------------
// The demo banner

/// Markup injected at the top of every full HTML page in demo mode.
pub const DEMO_BANNER_HTML: &'static str = "<div class=\"demo-banner\">Demo-Modus</div>";

/// The bytes of `<body`.
pub open spec fn body_tag() -> Seq<u8> {
    seq![60u8, 98u8, 111u8, 100u8, 121u8]
}

/// The first position at or after `i` where `<body` begins.
pub open spec fn body_tag_from(b: Seq<u8>, i: int) -> Option<int>
    decreases b.len() - i,
{
    if i < 0 || i + 5 > b.len() {
        None
    } else if b.subrange(i, i + 5) == body_tag() {
        Some(i)
    } else {
        body_tag_from(b, i + 1)
    }
}

/// The first position at or after `i` that holds `c`.
pub open spec fn byte_from(b: Seq<u8>, c: u8, i: int) -> Option<int>
    decreases b.len() - i,
{
    if i < 0 || i >= b.len() {
        None
    } else if b[i] == c {
        Some(i)
    } else {
        byte_from(b, c, i + 1)
    }
}

/// A page with the banner right after its opening `<body …>` tag (the first
/// `>` after the first `<body`); a page without one stays as it is.
pub open spec fn with_demo_banner(b: Seq<u8>) -> Seq<u8> {
    match body_tag_from(b, 0) {
        None => b,
        Some(i) => match byte_from(b, 62u8, i) {
            None => b,
            Some(g) => b.subrange(0, g + 1) + DEMO_BANNER_HTML.spec_bytes() + b.subrange(
                g + 1,
                b.len() as int,
            ),
        },
    }
}

proof fn lemma_byte_from(b: Seq<u8>, c: u8, i: int)
    requires
        0 <= i,
    ensures
        match byte_from(b, c, i) {
            Some(g) => i <= g < b.len() && b[g] == c,
            None => true,
        },
    decreases b.len() - i,
{
    if i < b.len() && b[i] != c {
        lemma_byte_from(b, c, i + 1);
    }
}

/// Inserts [`DEMO_BANNER_HTML`] right after the opening `<body>` tag, or
/// returns the body unchanged if no `<body>` tag is present.
pub fn insert_demo_banner(body: &[u8]) -> (res: Vec<u8>)
    ensures
        res@ == with_demo_banner(body@),
{
    let n = body.len();
    let mut i: usize = 0;
    let mut found: Option<usize> = None;
    while found.is_none() && n >= 5 && i <= n - 5
        invariant
            n == body@.len(),
            i <= n,
            found is None ==> body_tag_from(body@, 0) == body_tag_from(body@, i as int),
            found matches Some(s) ==> body_tag_from(body@, 0) == Some(s as int) && s + 5 <= n,
        decreases n - i + (if found is None {
            1int
        } else {
            0int
        }),
    {
        if body[i] == 60u8 && body[i + 1] == 98u8 && body[i + 2] == 111u8 && body[i + 3] == 100u8
            && body[i + 4] == 121u8 {
            assert(body@.subrange(i as int, i + 5) =~= body_tag());
            found = Some(i);
        } else {
            assert(body@.subrange(i as int, i + 5) != body_tag()) by {
                if body@.subrange(i as int, i + 5) == body_tag() {
                    assert(body@.subrange(i as int, i + 5)[0] == body@[i as int]);
                    assert(body@.subrange(i as int, i + 5)[1] == body@[i + 1]);
                    assert(body@.subrange(i as int, i + 5)[2] == body@[i + 2]);
                    assert(body@.subrange(i as int, i + 5)[3] == body@[i + 3]);
                    assert(body@.subrange(i as int, i + 5)[4] == body@[i + 4]);
                }
            }
            i = i + 1;
        }
    }
    let mut out: Vec<u8> = Vec::new();
    match found {
        None => {
            let mut k: usize = 0;
            while k < n
                invariant
                    n == body@.len(),
                    k <= n,
                    out@ == body@.subrange(0, k as int),
                decreases n - k,
            {
                out.push(body[k]);
                assert(out@ =~= body@.subrange(0, k + 1));
                k = k + 1;
            }
            assert(body@.subrange(0, n as int) =~= body@);
            out
        },
        Some(start) => {
            let mut g: usize = start;
            while g < n && body[g] != 62u8
                invariant
                    n == body@.len(),
                    start <= g <= n,
                    byte_from(body@, 62u8, start as int) == byte_from(body@, 62u8, g as int),
                decreases n - g,
            {
                g = g + 1;
            }
            let insert_at: usize = if g < n {
                g + 1
            } else {
                0
            };
            let mut k: usize = 0;
            let limit = if g < n {
                insert_at
            } else {
                n
            };
            while k < limit
                invariant
                    n == body@.len(),
                    limit <= n,
                    k <= limit,
                    out@ == body@.subrange(0, k as int),
                decreases limit - k,
            {
                out.push(body[k]);
                assert(out@ =~= body@.subrange(0, k + 1));
                k = k + 1;
            }
            if g < n {
                let banner = DEMO_BANNER_HTML.as_bytes();
                let m = banner.len();
                let mut j: usize = 0;
                while j < m
                    invariant
                        m == banner@.len(),
                        banner@ == DEMO_BANNER_HTML.spec_bytes(),
                        j <= m,
                        out@ == body@.subrange(0, insert_at as int) + banner@.subrange(0, j as int),
                    decreases m - j,
                {
                    out.push(banner[j]);
                    assert(out@ =~= body@.subrange(0, insert_at as int) + banner@.subrange(
                        0,
                        j + 1,
                    ));
                    j = j + 1;
                }
                assert(banner@.subrange(0, m as int) =~= banner@);
                let ghost head = out@;
                let mut k2: usize = insert_at;
                while k2 < n
                    invariant
                        n == body@.len(),
                        insert_at <= k2 <= n,
                        out@ == head + body@.subrange(insert_at as int, k2 as int),
                    decreases n - k2,
                {
                    out.push(body[k2]);
                    assert(out@ =~= head + body@.subrange(insert_at as int, k2 + 1));
                    k2 = k2 + 1;
                }
            } else {
                assert(body@.subrange(0, n as int) =~= body@);
            }
            out
        },
    }
}

} // verus!
