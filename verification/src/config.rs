//! Constants of the gateway and the resolution of the upstream address.

use vstd::prelude::*;
use vstd::string::*;

verus! {

/// Name of the header that carries the API key.
pub const API_KEY_HEADER: &'static str = "X-API-KEY";

/// Name of the environment variable that overrides the address of the
/// upstream service.
pub const PYTHON_URL_VARIABLE: &'static str = "PYTHON_AI_URL";

/// Address of the upstream service when none is configured.
pub const PYTHON_DEFAULT_URL: &'static str = "http://127.0.0.1:8001";

/// Name of the environment variable that sets the port to listen on.
pub const PORT_VARIABLE: &'static str = "RUST_API_PORT";

/// Port to listen on when none is configured.
pub const DEFAULT_PORT: u16 = 8000;

/// Path of the upstream endpoint that answers questions.
pub const PYTHON_ASK_ENDPOINT: &'static str = "/ask";

/// Path of the upstream endpoint that takes documents in.
pub const PYTHON_ADD_DOC_ENDPOINT: &'static str = "/add_doc";

/// Number of documents retrieved when a question names none.
pub const DEFAULT_TOP_K: u8 = 4;

/// Largest number of documents a question may ask for.
pub const MAX_TOP_K: u8 = 20;

/// Resolves the number of documents to retrieve: the requested number
/// clamped into `1..=MAX_TOP_K`, or `DEFAULT_TOP_K` when none was requested.
pub open spec fn spec_resolve_top_k(requested: Option<u8>) -> u8 {
    match requested {
        None => DEFAULT_TOP_K,
        Some(k) => if k < 1 {
            1
        } else if k > MAX_TOP_K {
            MAX_TOP_K
        } else {
            k
        },
    }
}

/// Executable form of [`spec_resolve_top_k`].
pub fn resolve_top_k(requested: Option<u8>) -> (top_k: u8)
    ensures
        top_k == spec_resolve_top_k(requested),
        1 <= top_k <= MAX_TOP_K,
{
    match requested {
        None => DEFAULT_TOP_K,
        Some(k) => {
            if k < 1 {
                1
            } else if k > MAX_TOP_K {
                MAX_TOP_K
            } else {
                k
            }
        },
    }
}

/// The base address of the upstream service: the configured one where
/// there is one, and else the default.
pub open spec fn spec_python_service_base_url(configured: Option<Seq<char>>) -> Seq<char> {
    match configured {
        Some(url) => url,
        None => PYTHON_DEFAULT_URL@,
    }
}

/// Executable form of [`spec_python_service_base_url`]. `configured` is the
/// value of the variable named by `PYTHON_URL_VARIABLE`, if it is set.
pub fn python_service_base_url(configured: Option<String>) -> (url: String)
    ensures
        url@ == spec_python_service_base_url(
            match configured {
                Some(u) => Some(u@),
                None => None,
            },
        ),
{
    match configured {
        Some(url) => url,
        None => PYTHON_DEFAULT_URL.to_owned(),
    }
}

/// Number of slashes at the end of `s`.
pub open spec fn trailing_slashes(s: Seq<char>) -> nat
    decreases s.len(),
{
    if s.len() > 0 && s.last() == '/' {
        1 + trailing_slashes(s.drop_last())
    } else {
        0
    }
}

/// `s` without the slashes at its end.
pub open spec fn without_trailing_slashes(s: Seq<char>) -> Seq<char> {
    s.take(s.len() - trailing_slashes(s))
}

/// The address of an upstream endpoint: the base address without the
/// slashes at its end, followed by the path of the endpoint.
pub open spec fn spec_upstream_url(base_url: Seq<char>, endpoint: Seq<char>) -> Seq<char> {
    without_trailing_slashes(base_url) + endpoint
}

/// A count of characters at the end of `s` that are all slashes and that
/// stops at a character which is not, or at the front, is the number of
/// trailing slashes.
pub proof fn lemma_trailing_slashes_unique(s: Seq<char>, n: int)
    requires
        0 <= n <= s.len(),
        forall|i: int| s.len() - n <= i < s.len() ==> #[trigger] s[i] == '/',
        n < s.len() ==> s[s.len() - n - 1] != '/',
    ensures
        trailing_slashes(s) == n,
    decreases s.len(),
{
    if n > 0 {
        let rest = s.drop_last();
        assert(s[s.len() - 1] == '/');
        assert forall|i: int| rest.len() - (n - 1) <= i < rest.len() implies #[trigger] rest[i]
            == '/' by {
            assert(rest[i] == s[i]);
        }
        if n - 1 < rest.len() {
            assert(rest[rest.len() - (n - 1) - 1] == s[s.len() - n - 1]);
        }
        lemma_trailing_slashes_unique(rest, n - 1);
    }
}

/// Executable form of [`spec_upstream_url`].
pub fn upstream_url(base_url: &str, endpoint: &str) -> (url: String)
    ensures
        url@ == spec_upstream_url(base_url@, endpoint@),
{
    let n = base_url.unicode_len();
    let mut end: usize = n;
    while end > 0 && base_url.get_char(end - 1) == '/'
        invariant
            n == base_url@.len(),
            end <= n,
            forall|i: int| end <= i < n ==> #[trigger] base_url@[i] == '/',
        decreases end,
    {
        end -= 1;
    }
    proof {
        lemma_trailing_slashes_unique(base_url@, (n - end) as int);
        assert(base_url@.subrange(0, end as int) =~= without_trailing_slashes(base_url@));
    }
    base_url.substring_char(0, end).to_owned().concat(endpoint)
}

/// A decimal digit.
pub open spec fn is_digit(c: char) -> bool {
    '0' <= c && c <= '9'
}

/// Every character of `s` is a decimal digit.
pub open spec fn all_digits(s: Seq<char>) -> bool {
    forall|i: int| 0 <= i < s.len() ==> is_digit(#[trigger] s[i])
}

/// The number that a sequence of decimal digits spells.
pub open spec fn digits_value(s: Seq<char>) -> nat
    decreases s.len(),
{
    if s.len() == 0 {
        0
    } else {
        digits_value(s.drop_last()) * 10 + (s.last() as nat - '0' as nat) as nat
    }
}

/// The part of a text that has to spell the number of a port: the text
/// without the plus sign in front, if it has one.
pub open spec fn port_digits(text: Seq<char>) -> Seq<char> {
    if text.len() > 0 && text[0] == '+' {
        text.skip(1)
    } else {
        text
    }
}

/// The port that a text spells: the text is one or more decimal digits,
/// with or without a plus sign in front, and the number is at most 65535.
pub open spec fn spec_parse_port(text: Seq<char>) -> Option<u16> {
    let digits = port_digits(text);
    if digits.len() > 0 && all_digits(digits) && digits_value(digits) <= u16::MAX {
        Some(digits_value(digits) as u16)
    } else {
        None
    }
}

/// The port to listen on: the configured one where the configured text
/// spells a port, and else the default.
pub open spec fn spec_listen_port(configured: Option<Seq<char>>) -> u16 {
    match configured {
        Some(text) => match spec_parse_port(text) {
            Some(port) => port,
            None => DEFAULT_PORT,
        },
        None => DEFAULT_PORT,
    }
}

/// The number spelled by the first digits of a sequence of digits is at
/// most the number that the whole sequence spells.
pub proof fn lemma_digits_value_grows(s: Seq<char>, n: int)
    requires
        0 <= n <= s.len(),
        all_digits(s),
    ensures
        digits_value(s.take(n)) <= digits_value(s),
    decreases s.len(),
{
    if n == s.len() {
        assert(s.take(n) =~= s);
    } else {
        let rest = s.drop_last();
        assert(is_digit(s.last()));
        assert forall|i: int| 0 <= i < rest.len() implies is_digit(#[trigger] rest[i]) by {
            assert(rest[i] == s[i]);
        }
        lemma_digits_value_grows(rest, n);
        assert(rest.take(n) =~= s.take(n));
    }
}

/// Executable form of [`spec_parse_port`].
pub fn parse_port(text: &str) -> (port: Option<u16>)
    ensures
        port == spec_parse_port(text@),
{
    let n = text.unicode_len();
    let start: usize = if n > 0 && text.get_char(0) == '+' {
        1
    } else {
        0
    };
    let ghost digits = port_digits(text@);
    proof {
        assert(digits =~= text@.skip(start as int));
    }
    if start == n {
        return None;
    }
    let mut value: u16 = 0;
    let mut i: usize = start;
    while i < n
        invariant
            n == text@.len(),
            start <= i <= n,
            start < n,
            digits == port_digits(text@),
            digits == text@.skip(start as int),
            all_digits(digits.take(i - start)),
            value == digits_value(digits.take(i - start)),
        decreases n - i,
    {
        let c = text.get_char(i);
        let ghost seen = digits.take(i - start);
        let ghost more = digits.take(i - start + 1);
        proof {
            assert(more.drop_last() =~= seen);
            assert(more.last() == c);
        }
        if !('0' <= c && c <= '9') {
            proof {
                assert(digits[i - start] == c);
            }
            return None;
        }
        let digit: u16 = (c as u32 - '0' as u32) as u16;
        proof {
            assert forall|j: int| 0 <= j < more.len() implies is_digit(#[trigger] more[j]) by {
                if j < seen.len() {
                    assert(more[j] == seen[j]);
                }
            }
            if value as nat * 10 + digit as nat > u16::MAX {
                if all_digits(digits) {
                    lemma_digits_value_grows(digits, i - start + 1);
                }
            }
        }
        if value > 6553 || (value == 6553 && digit > 5) {
            return None;
        }
        value = value * 10 + digit;
        i += 1;
    }
    proof {
        assert(digits.take(n - start) =~= digits);
    }
    Some(value)
}

/// Executable form of [`spec_listen_port`]. `configured` is the value of the
/// variable named by `PORT_VARIABLE`, if it is set.
pub fn listen_port(configured: Option<&str>) -> (port: u16)
    ensures
        port == spec_listen_port(
            match configured {
                Some(text) => Some(text@),
                None => None,
            },
        ),
{
    match configured {
        Some(text) => match parse_port(text) {
            Some(port) => port,
            None => DEFAULT_PORT,
        },
        None => DEFAULT_PORT,
    }
}

} // verus!
