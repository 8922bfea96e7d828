//! The API-key guard: reading the key out of the raw value of the
//! `X-API-KEY` header.

use crate::config::API_KEY_HEADER;
use crate::events::{
    log_gateway_event, LogDetails, LogDetailsView, LogEntry, LogEntryView, EVENT_AUTH_FAILED,
};
use crate::model::{
    AuthErrorBody, GatewayResponse, GatewayResponseView, ResponseBody, ResponseBodyView,
    STATUS_UNAUTHORIZED,
};
use vstd::prelude::*;
use vstd::string::*;
use vstd::utf8::*;

verus! {

/// Why a request was turned away by the guard.
#[derive(Clone, Copy, Debug, PartialEq, Eq, Structural)]
pub enum AuthFailure {
    /// The request carries no API-key header.
    Missing,
    /// The header is there, but nothing is left of its value once the
    /// surrounding whitespace is taken off.
    Empty,
}

/// A byte that may appear in a header value that reads as text: printable
/// ASCII or a horizontal tab.
pub open spec fn is_visible_ascii(b: u8) -> bool {
    (32 <= b && b < 127) || b == 9
}

/// A header value reads as text when every byte of it is visible ASCII.
pub open spec fn is_readable(raw: Seq<u8>) -> bool {
    forall|i: int| 0 <= i < raw.len() ==> is_visible_ascii(#[trigger] raw[i])
}

/// The whitespace that a readable header value can hold: space and tab.
pub open spec fn is_blank(b: u8) -> bool {
    b == 32 || b == 9
}

/// Number of blank bytes at the front of `s`.
pub open spec fn leading_blanks(s: Seq<u8>) -> nat
    decreases s.len(),
{
    if s.len() > 0 && is_blank(s[0]) {
        1 + leading_blanks(s.drop_first())
    } else {
        0
    }
}

/// Number of blank bytes at the back of `s`.
pub open spec fn trailing_blanks(s: Seq<u8>) -> nat
    decreases s.len(),
{
    if s.len() > 0 && is_blank(s.last()) {
        1 + trailing_blanks(s.drop_last())
    } else {
        0
    }
}

/// `s` without the blanks at its front.
pub open spec fn trim_front(s: Seq<u8>) -> Seq<u8> {
    s.skip(leading_blanks(s) as int)
}

/// `s` without the blanks at its back.
pub open spec fn trim_back(s: Seq<u8>) -> Seq<u8> {
    s.take(s.len() - trailing_blanks(s))
}

/// `s` without the blanks at either end.
pub open spec fn trimmed(s: Seq<u8>) -> Seq<u8> {
    trim_back(trim_front(s))
}

/// The text that a sequence of ASCII bytes spells.
pub open spec fn ascii_text(bytes: Seq<u8>) -> Seq<char> {
    Seq::new(bytes.len(), |i: int| bytes[i] as char)
}

/// The text of a header value as the guard sees it: the value itself when
/// it is readable, and nothing otherwise.
pub open spec fn header_text(raw: Seq<u8>) -> Seq<u8> {
    if is_readable(raw) {
        raw
    } else {
        Seq::empty()
    }
}

/// What the guard makes of a header value, absent or present: the trimmed
/// key, or the reason for turning the request away.
pub open spec fn spec_parse_api_key(header: Option<Seq<u8>>) -> Result<Seq<char>, AuthFailure> {
    match header {
        None => Err(AuthFailure::Missing),
        Some(raw) => {
            let key = trimmed(header_text(raw));
            if key.len() == 0 {
                Err(AuthFailure::Empty)
            } else {
                Ok(ascii_text(key))
            }
        },
    }
}

/// The blanks at the front of `s` are counted by `leading_blanks`: every
/// byte before the count is blank, and the byte at the count, if there is
/// one, is not.
pub proof fn lemma_leading_blanks(s: Seq<u8>)
    ensures
        leading_blanks(s) <= s.len(),
        forall|i: int| 0 <= i < leading_blanks(s) ==> is_blank(#[trigger] s[i]),
        leading_blanks(s) < s.len() ==> !is_blank(s[leading_blanks(s) as int]),
    decreases s.len(),
{
    if s.len() > 0 && is_blank(s[0]) {
        let rest = s.drop_first();
        lemma_leading_blanks(rest);
        assert forall|i: int| 0 <= i < leading_blanks(s) implies is_blank(#[trigger] s[i]) by {
            if i > 0 {
                assert(s[i] == rest[i - 1]);
            }
        }
        if leading_blanks(s) < s.len() {
            assert(s[leading_blanks(s) as int] == rest[leading_blanks(rest) as int]);
        }
    }
}

/// A count of leading bytes that are all blank and that stops at a byte
/// which is not, or at the end, is the number of leading blanks.
pub proof fn lemma_leading_blanks_unique(s: Seq<u8>, n: int)
    requires
        0 <= n <= s.len(),
        forall|i: int| 0 <= i < n ==> is_blank(#[trigger] s[i]),
        n < s.len() ==> !is_blank(s[n]),
    ensures
        leading_blanks(s) == n,
    decreases s.len(),
{
    if n > 0 {
        let rest = s.drop_first();
        assert(is_blank(s[0]));
        assert forall|i: int| 0 <= i < n - 1 implies is_blank(#[trigger] rest[i]) by {
            assert(rest[i] == s[i + 1]);
        }
        if n - 1 < rest.len() {
            assert(rest[n - 1] == s[n]);
        }
        lemma_leading_blanks_unique(rest, n - 1);
    }
}

/// A count of trailing bytes that are all blank and that stops at a byte
/// which is not, or at the front, is the number of trailing blanks.
pub proof fn lemma_trailing_blanks_unique(s: Seq<u8>, n: int)
    requires
        0 <= n <= s.len(),
        forall|i: int| s.len() - n <= i < s.len() ==> is_blank(#[trigger] s[i]),
        n < s.len() ==> !is_blank(s[s.len() - n - 1]),
    ensures
        trailing_blanks(s) == n,
    decreases s.len(),
{
    if n > 0 {
        let rest = s.drop_last();
        assert(is_blank(s[s.len() - 1]));
        assert forall|i: int| rest.len() - (n - 1) <= i < rest.len() implies is_blank(
            #[trigger] rest[i],
        ) by {
            assert(rest[i] == s[i]);
        }
        if n - 1 < rest.len() {
            assert(rest[rest.len() - (n - 1) - 1] == s[s.len() - n - 1]);
        }
        lemma_trailing_blanks_unique(rest, n - 1);
    }
}

/// ASCII bytes spell ASCII text, and that text encodes to the same bytes.
pub proof fn lemma_ascii_text_encoding(bytes: Seq<u8>)
    requires
        forall|i: int| 0 <= i < bytes.len() ==> #[trigger] bytes[i] < 128,
    ensures
        is_ascii_chars(ascii_text(bytes)),
        encode_utf8(ascii_text(bytes)) == bytes,
        valid_utf8(bytes),
        decode_utf8(bytes) == ascii_text(bytes),
{
    let text = ascii_text(bytes);
    assert forall|i: int| 0 <= i < text.len() implies '\0' <= #[trigger] text[i] <= '\u{7f}' by {
        assert(bytes[i] < 128);
    }
    is_ascii_chars_encode_utf8(text);
    assert forall|i: int| 0 <= i < bytes.len() implies encode_utf8(text)[i] == bytes[i] by {
        assert(bytes[i] < 128);
        assert(text[i] as u8 == encode_utf8(text)[i]);
    }
    assert(encode_utf8(text) =~= bytes);
    encode_utf8_valid_utf8(text);
    encode_utf8_decode_utf8(text);
}

/// Reads bytes as text with `core::str::from_utf8`. The text is there
/// exactly when the bytes are well-formed UTF-8, and it is then the text
/// that those bytes encode. Taken on trust.
#[verifier::external_body]
fn utf8_text(bytes: &[u8]) -> (text: Option<&str>)
    ensures
        text is Some <==> valid_utf8(bytes@),
        text matches Some(t) ==> t.spec_bytes() == bytes@,
{
    core::str::from_utf8(bytes).ok()
}

/// Tells whether a header value reads as text.
pub fn header_is_readable(raw: &[u8]) -> (ok: bool)
    ensures
        ok == is_readable(raw@),
{
    let mut i: usize = 0;
    while i < raw.len()
        invariant
            i <= raw.len(),
            forall|j: int| 0 <= j < i ==> is_visible_ascii(#[trigger] raw@[j]),
        decreases raw.len() - i,
    {
        let b: u8 = raw[i];
        if !((32 <= b && b < 127) || b == 9) {
            return false;
        }
        i += 1;
    }
    true
}

/// The bytes of a header value, if the header is there.
pub open spec fn header_view(header: Option<&[u8]>) -> Option<Seq<u8>> {
    match header {
        Some(raw) => Some(raw@),
        None => None,
    }
}

/// Reads the API key out of the raw value of the API-key header, `None`
/// standing for a request without that header.
///
/// A value that does not read as text counts as empty. Otherwise the
/// surrounding whitespace is taken off, and what is left is the key, unless
/// nothing is left.
pub fn parse_api_key(header: Option<&[u8]>) -> (r: Result<String, AuthFailure>)
    ensures
        spec_parse_api_key(header_view(header)) == (match r {
            Ok(key) => Ok::<Seq<char>, AuthFailure>(key@),
            Err(failure) => Err(failure),
        }),
{
    let raw = match header {
        None => {
            return Err(AuthFailure::Missing);
        },
        Some(raw) => raw,
    };
    if !header_is_readable(raw) {
        proof {
            lemma_leading_blanks_unique(Seq::<u8>::empty(), 0);
            lemma_trailing_blanks_unique(trim_front(Seq::<u8>::empty()), 0);
        }
        return Err(AuthFailure::Empty);
    }
    let n = raw.len();
    let mut start: usize = 0;
    while start < n && (raw[start] == 32 || raw[start] == 9)
        invariant
            n == raw@.len(),
            start <= n,
            forall|j: int| 0 <= j < start ==> is_blank(#[trigger] raw@[j]),
        decreases n - start,
    {
        start += 1;
    }
    let mut end: usize = n;
    while end > start && (raw[end - 1] == 32 || raw[end - 1] == 9)
        invariant
            n == raw@.len(),
            start <= end <= n,
            forall|j: int| end <= j < n ==> is_blank(#[trigger] raw@[j]),
        decreases end - start,
    {
        end -= 1;
    }
    proof {
        lemma_leading_blanks_unique(raw@, start as int);
        let front = trim_front(raw@);
        assert(front =~= raw@.skip(start as int));
        assert forall|j: int| front.len() - (n - end) <= j < front.len() implies is_blank(
            #[trigger] front[j],
        ) by {
            assert(front[j] == raw@[start + j]);
        }
        if n - end < front.len() {
            assert(front[front.len() - (n - end) - 1] == raw@[end - 1]);
        }
        lemma_trailing_blanks_unique(front, (n - end) as int);
        assert(trimmed(raw@) =~= raw@.subrange(start as int, end as int));
    }
    if start == end {
        return Err(AuthFailure::Empty);
    }
    proof {
        assert forall|j: int| 0 <= j < raw@.len() implies #[trigger] raw@[j] < 128 by {
            assert(is_visible_ascii(raw@[j]));
        }
        lemma_ascii_text_encoding(raw@);
    }
    match utf8_text(raw) {
        Some(text) => {
            proof {
                encode_utf8_decode_utf8(text@);
                assert(text@ == ascii_text(raw@));
            }
            let key = text.substring_ascii(start, end).to_owned();
            proof {
                assert(key@ =~= ascii_text(raw@.subrange(start as int, end as int)));
            }
            Ok(key)
        },
        None => Err(AuthFailure::Empty),
    }
}

/// The message that tells a client why the guard turned its request away.
pub open spec fn auth_error_message(failure: AuthFailure) -> Seq<char> {
    match failure {
        AuthFailure::Missing => "Missing "@ + API_KEY_HEADER@ + " header"@,
        AuthFailure::Empty => API_KEY_HEADER@ + " header must not be empty"@,
    }
}

impl AuthFailure {
    /// The reason as it is written on the log.
    pub fn reason(&self) -> (reason: &'static str)
        ensures
            reason@ == match *self {
                AuthFailure::Missing => "missing"@,
                AuthFailure::Empty => "empty"@,
            },
    {
        match self {
            AuthFailure::Missing => "missing",
            AuthFailure::Empty => "empty",
        }
    }

    /// Executable form of [`auth_error_message`].
    pub fn message(&self) -> (message: String)
        ensures
            message@ == auth_error_message(*self),
    {
        match self {
            AuthFailure::Missing => "Missing ".to_owned().concat(API_KEY_HEADER).concat(" header"),
            AuthFailure::Empty => API_KEY_HEADER.to_owned().concat(" header must not be empty"),
        }
    }
}

/// A header of a request: its name and the raw bytes of its value.
#[derive(Clone, Debug, PartialEq, Eq)]
pub struct Header {
    pub name: String,
    pub value: Vec<u8>,
}

/// View of a [`Header`].
pub struct HeaderView {
    pub name: Seq<char>,
    pub value: Seq<u8>,
}

impl View for Header {
    type V = HeaderView;

    open spec fn view(&self) -> HeaderView {
        HeaderView { name: self.name@, value: self.value@ }
    }
}

/// The views of a list of headers, in the order of the list.
pub open spec fn headers_view(headers: Seq<Header>) -> Seq<HeaderView> {
    headers.map_values(|h: Header| h@)
}

/// A letter of the ASCII alphabet in lower case, and every other character
/// as it is.
pub open spec fn ascii_lower(c: char) -> char {
    if 'A' <= c && c <= 'Z' {
        ((c as u8) + 32) as char
    } else {
        c
    }
}

/// Two header names are the same name: they differ at most in the case of
/// their ASCII letters.
pub open spec fn same_header_name(a: Seq<char>, b: Seq<char>) -> bool {
    a.len() == b.len() && forall|i: int|
        0 <= i < a.len() ==> ascii_lower(#[trigger] a[i]) == ascii_lower(b[i])
}

/// The value of the first header with the given name, if there is one.
pub open spec fn spec_find_header(headers: Seq<HeaderView>, name: Seq<char>) -> Option<Seq<u8>>
    decreases headers.len(),
{
    if headers.len() == 0 {
        None
    } else if same_header_name(headers[0].name, name) {
        Some(headers[0].value)
    } else {
        spec_find_header(headers.drop_first(), name)
    }
}

/// Executable form of [`ascii_lower`].
fn to_ascii_lower(c: char) -> (lower: char)
    ensures
        lower == ascii_lower(c),
{
    if 'A' <= c && c <= 'Z' {
        ((c as u8) + 32) as char
    } else {
        c
    }
}

/// Executable form of [`same_header_name`].
pub fn header_names_match(a: &str, b: &str) -> (same: bool)
    ensures
        same == same_header_name(a@, b@),
{
    let n = a.unicode_len();
    if n != b.unicode_len() {
        return false;
    }
    let mut i: usize = 0;
    while i < n
        invariant
            n == a@.len(),
            n == b@.len(),
            i <= n,
            forall|j: int| 0 <= j < i ==> ascii_lower(#[trigger] a@[j]) == ascii_lower(b@[j]),
        decreases n - i,
    {
        if to_ascii_lower(a.get_char(i)) != to_ascii_lower(b.get_char(i)) {
            return false;
        }
        i += 1;
    }
    true
}

/// Executable form of [`spec_find_header`].
pub fn find_header<'a>(headers: &'a Vec<Header>, name: &str) -> (value: Option<&'a [u8]>)
    ensures
        header_view(value) == spec_find_header(headers_view(headers@), name@),
{
    let mut i: usize = 0;
    proof {
        assert(headers_view(headers@).skip(0) =~= headers_view(headers@));
    }
    while i < headers.len()
        invariant
            i <= headers@.len(),
            spec_find_header(headers_view(headers@), name@) == spec_find_header(
                headers_view(headers@).skip(i as int),
                name@,
            ),
        decreases headers@.len() - i,
    {
        let ghost rest = headers_view(headers@).skip(i as int);
        proof {
            assert(rest[0] == headers@[i as int]@);
            assert(rest.drop_first() =~= headers_view(headers@).skip(i + 1));
        }
        if header_names_match(headers[i].name.as_str(), name) {
            return Some(headers[i].value.as_slice());
        }
        i += 1;
    }
    proof {
        assert(headers_view(headers@).skip(i as int).len() == 0);
    }
    None
}

/// What the guard reads of an inbound request: where it goes, how, and its
/// headers. Headers of one name stand in the order in which they came.
#[derive(Clone, Debug, PartialEq, Eq)]
pub struct RequestHead {
    pub path: String,
    pub method: String,
    pub headers: Vec<Header>,
}

/// View of a [`RequestHead`].
pub struct RequestHeadView {
    pub path: Seq<char>,
    pub method: Seq<char>,
    pub headers: Seq<HeaderView>,
}

impl View for RequestHead {
    type V = RequestHeadView;

    open spec fn view(&self) -> RequestHeadView {
        RequestHeadView {
            path: self.path@,
            method: self.method@,
            headers: headers_view(self.headers@),
        }
    }
}

/// The raw value of the API-key header of a request, if the request has
/// that header. The name of the header is matched without regard to case.
pub open spec fn api_key_header(request: RequestHeadView) -> Option<Seq<u8>> {
    spec_find_header(request.headers, API_KEY_HEADER@)
}

/// What becomes of a request that the guard turns away: the response to
/// the client and the event to log.
#[derive(Clone, Debug, PartialEq, Eq)]
pub struct AuthRejection {
    pub failure: AuthFailure,
    pub response: GatewayResponse,
    pub event: LogEntry,
}

/// View of an [`AuthRejection`].
pub struct AuthRejectionView {
    pub failure: AuthFailure,
    pub response: GatewayResponseView,
    pub event: LogEntryView,
}

impl View for AuthRejection {
    type V = AuthRejectionView;

    open spec fn view(&self) -> AuthRejectionView {
        AuthRejectionView { failure: self.failure, response: self.response@, event: self.event@ }
    }
}

/// The rejection of a request for the given reason: status 401 with the
/// message for that reason, and an event that names the path, the method
/// and the reason.
pub open spec fn spec_auth_rejection(
    request: RequestHeadView,
    failure: AuthFailure,
) -> AuthRejectionView {
    AuthRejectionView {
        failure,
        response: GatewayResponseView {
            status: STATUS_UNAUTHORIZED,
            body: ResponseBodyView::AuthError { error: auth_error_message(failure) },
        },
        event: LogEntryView {
            event: EVENT_AUTH_FAILED@,
            details: LogDetailsView::AuthFailed {
                path: request.path,
                method: request.method,
                reason: failure,
            },
        },
    }
}

/// What the guard makes of a request: the API key, or the rejection.
pub open spec fn spec_extract_api_key(request: RequestHeadView) -> Result<
    Seq<char>,
    AuthRejectionView,
> {
    match spec_parse_api_key(api_key_header(request)) {
        Ok(key) => Ok(key),
        Err(failure) => Err(spec_auth_rejection(request, failure)),
    }
}

/// The guard. It lets a request pass when its API-key header holds a key,
/// and hands that key back; else it says how to answer the client and what
/// to log. The key is not compared with anything.
pub fn extract_api_key(request: &RequestHead) -> (r: Result<String, AuthRejection>)
    ensures
        spec_extract_api_key(request@) == (match r {
            Ok(key) => Ok::<Seq<char>, AuthRejectionView>(key@),
            Err(rejection) => Err(rejection@),
        }),
{
    match parse_api_key(find_header(&request.headers, API_KEY_HEADER)) {
        Ok(key) => Ok(key),
        Err(failure) => {
            let event = log_gateway_event(
                EVENT_AUTH_FAILED,
                LogDetails::AuthFailed {
                    path: request.path.clone(),
                    method: request.method.clone(),
                    reason: failure,
                },
            );
            let response = GatewayResponse {
                status: STATUS_UNAUTHORIZED,
                body: ResponseBody::AuthError(AuthErrorBody { error: failure.message() }),
            };
            Err(AuthRejection { failure, response, event })
        },
    }
}

/// A byte of ASCII whitespace.
pub open spec fn is_ascii_whitespace(b: u8) -> bool {
    b == 32 || (9 <= b && b <= 13)
}

/// No key is read from a header value that is empty or holds nothing but
/// ASCII whitespace, nor from one that does not read as text.
pub proof fn lemma_blank_header_has_no_key(raw: Seq<u8>)
    requires
        !is_readable(raw) || forall|i: int|
            0 <= i < raw.len() ==> is_ascii_whitespace(#[trigger] raw[i]),
    ensures
        spec_parse_api_key(Some(raw)) == Err::<Seq<char>, AuthFailure>(AuthFailure::Empty),
{
    if is_readable(raw) {
        assert forall|i: int| 0 <= i < raw.len() implies is_blank(#[trigger] raw[i]) by {
            assert(is_visible_ascii(raw[i]));
            assert(is_ascii_whitespace(raw[i]));
        }
        lemma_leading_blanks_unique(raw, raw.len() as int);
        assert(trim_front(raw) =~= Seq::<u8>::empty());
    }
    lemma_leading_blanks_unique(Seq::<u8>::empty(), 0);
    lemma_trailing_blanks_unique(Seq::<u8>::empty(), 0);
}

/// The header value of a request holds no key: the header is missing, or
/// its value is empty, all whitespace or unreadable.
pub open spec fn lacks_api_key(request: RequestHeadView) -> bool {
    api_key_header(request) matches Some(raw) ==> !is_readable(raw) || forall|i: int|
        0 <= i < raw.len() ==> is_ascii_whitespace(#[trigger] raw[i])
}

/// A request without the API-key header, or with one whose value is empty,
/// all whitespace or unreadable, is turned away with a client error.
pub proof fn lemma_guard_rejects_missing_and_blank(request: RequestHeadView)
    requires
        lacks_api_key(request),
    ensures
        spec_extract_api_key(request) matches Err(rejection) && rejection.response.status == 401
            && rejection.response.body is AuthError && rejection.failure == (match api_key_header(
            request,
        ) {
            Some(_) => AuthFailure::Empty,
            None => AuthFailure::Missing,
        }),
{
    match api_key_header(request) {
        Some(raw) => {
            lemma_blank_header_has_no_key(raw);
        },
        None => {},
    }
}

/// A key that the guard hands back is never empty and has no whitespace at
/// either end.
pub proof fn lemma_key_is_trimmed(header: Option<Seq<u8>>)
    requires
        spec_parse_api_key(header) is Ok,
    ensures
        ({
            let key = spec_parse_api_key(header)->Ok_0;
            &&& key.len() > 0
            &&& key.first() != ' ' && key.first() != '\t'
            &&& key.last() != ' ' && key.last() != '\t'
        }),
{
    let raw = header->Some_0;
    let text = header_text(raw);
    let front = trim_front(text);
    let key = trimmed(text);
    lemma_leading_blanks(text);
    lemma_trailing_blanks(front);
    assert(key.first() == front[0]);
    assert(front[0] == text[leading_blanks(text) as int]);
    assert(key.last() == front[front.len() - trailing_blanks(front) - 1]);
    assert(ascii_text(key).first() == key.first() as char);
    assert(ascii_text(key).last() == key.last() as char);
}

/// The blanks at the back of `s` are counted by `trailing_blanks`, and the
/// byte before them, if there is one, is not blank.
pub proof fn lemma_trailing_blanks(s: Seq<u8>)
    ensures
        trailing_blanks(s) <= s.len(),
        trailing_blanks(s) < s.len() ==> !is_blank(s[s.len() - trailing_blanks(s) - 1]),
    decreases s.len(),
{
    if s.len() > 0 && is_blank(s.last()) {
        let rest = s.drop_last();
        lemma_trailing_blanks(rest);
        if trailing_blanks(s) < s.len() {
            assert(s[s.len() - trailing_blanks(s) - 1] == rest[rest.len() - trailing_blanks(rest)
                - 1]);
        }
    }
}

} // verus!
