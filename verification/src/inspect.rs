//! Two narrow looks at a TCP payload: the request line and host of an HTTP
//! request, and the first bytes of a TLS handshake. What they find is for
//! diagnostics; no field of a record depends on it.

use vstd::prelude::*;
use vstd::utf8::{decode_utf8, valid_utf8};
use crate::frame::{slice_ethernet, sliced_layers, Layers, LayersView, Transport};
use crate::packet::layers_view;
use crate::text::chars_of;

verus! {

/// Whether a character separates the tokens of a line: a space, a tab, a
/// line feed, a vertical tab, a form feed or a carriage return.
pub open spec fn is_space(c: char) -> bool {
    c == ' ' || c == '\t' || c == '\n' || c == '\x0b' || c == '\x0c' || c == '\r'
}

/// Where the line that holds position `from` ends: at the first line feed
/// at or after `from`, or at the end of the text.
pub open spec fn line_end(t: Seq<char>, from: int) -> int
    decreases t.len() - from,
{
    if from < 0 || from >= t.len() {
        t.len() as int
    } else if t[from] == '\n' {
        from
    } else {
        line_end(t, from + 1)
    }
}

/// The line that starts at `from`, without its line feed and without a
/// carriage return before that line feed.
pub open spec fn line_at(t: Seq<char>, from: int) -> Seq<char> {
    let end = line_end(t, from);
    if end < t.len() && from < end && t[end - 1] == '\r' {
        t.subrange(from, end - 1)
    } else {
        t.subrange(from, end)
    }
}

/// The first position at or after `from` that holds no separator, or the
/// length of the line.
pub open spec fn skip_spaces(l: Seq<char>, from: int) -> int
    decreases l.len() - from,
{
    if from < 0 || from >= l.len() {
        l.len() as int
    } else if !is_space(l[from]) {
        from
    } else {
        skip_spaces(l, from + 1)
    }
}

/// The first position at or after `from` that holds a separator, or the
/// length of the line.
pub open spec fn token_end(l: Seq<char>, from: int) -> int
    decreases l.len() - from,
{
    if from < 0 || from >= l.len() {
        l.len() as int
    } else if is_space(l[from]) {
        from
    } else {
        token_end(l, from + 1)
    }
}

/// The end of what is left of `l` between `lo` and `hi` once the
/// separators at its end are taken off.
pub open spec fn trim_end(l: Seq<char>, lo: int, hi: int) -> int
    decreases hi - lo,
{
    if hi <= lo || hi > l.len() {
        lo
    } else if !is_space(l[hi - 1]) {
        hi
    } else {
        trim_end(l, lo, hi - 1)
    }
}

/// The line from position `from` on, without the separators at its two
/// ends.
pub open spec fn trimmed(l: Seq<char>, from: int) -> Seq<char> {
    let lo = skip_spaces(l, from);
    l.subrange(lo, trim_end(l, lo, l.len() as int))
}

/// Whether the line begins with one of the HTTP method tokens.
pub open spec fn begins_with_method(l: Seq<char>) -> bool {
    ||| "GET"@.is_prefix_of(l)
    ||| "POST"@.is_prefix_of(l)
    ||| "PUT"@.is_prefix_of(l)
    ||| "DELETE"@.is_prefix_of(l)
    ||| "HEAD"@.is_prefix_of(l)
    ||| "OPTIONS"@.is_prefix_of(l)
    ||| "PATCH"@.is_prefix_of(l)
    ||| "CONNECT"@.is_prefix_of(l)
    ||| "TRACE"@.is_prefix_of(l)
}

/// Whether the line begins with `host:`, in upper or lower case.
pub open spec fn is_host_line(l: Seq<char>) -> bool {
    &&& l.len() >= 5
    &&& (l[0] == 'h' || l[0] == 'H')
    &&& (l[1] == 'o' || l[1] == 'O')
    &&& (l[2] == 's' || l[2] == 'S')
    &&& (l[3] == 't' || l[3] == 'T')
    &&& l[4] == ':'
}

/// The trimmed value of the first line at or after position `from` that
/// begins with `host:`, where `from` is the start of a line.
pub open spec fn find_host(t: Seq<char>, from: int) -> Option<Seq<char>>
    decreases t.len() - from,
{
    if from < 0 || from >= t.len() {
        None
    } else if is_host_line(line_at(t, from)) {
        Some(trimmed(line_at(t, from), 5))
    } else {
        let next = line_end(t, from) + 1;
        if from < next <= t.len() {
            find_host(t, next)
        } else {
            None
        }
    }
}

/// What was found of an HTTP request, as a mathematical value.
pub struct HttpView {
    pub method: Seq<char>,
    pub target: Seq<char>,
    pub host: Option<Seq<char>>,
}

/// What was found of an HTTP request: the first two tokens of its first
/// line, and the value of its host line where it has one.
#[derive(Debug)]
pub struct HttpRequest {
    pub method: String,
    pub target: String,
    pub host: Option<String>,
}

impl View for HttpRequest {
    type V = HttpView;

    open spec fn view(&self) -> HttpView {
        HttpView {
            method: self.method@,
            target: self.target@,
            host: match self.host {
                Some(h) => Some(h@),
                None => None,
            },
        }
    }
}

/// A finding, if there is one, as a mathematical value.
pub open spec fn http_view(found: Option<HttpRequest>) -> Option<HttpView> {
    match found {
        Some(r) => Some(r@),
        None => None,
    }
}

/// The HTTP request in a text: none unless the first line begins with a
/// method token and has two tokens; else its first two tokens and the
/// host.
pub open spec fn http_request(t: Seq<char>) -> Option<HttpView> {
    let l = line_at(t, 0);
    let method_end = token_end(l, 0);
    let target_start = skip_spaces(l, method_end);
    let target_end = token_end(l, target_start);
    if !begins_with_method(l) || target_start >= l.len() {
        None
    } else {
        Some(
            HttpView {
                method: l.subrange(0, method_end),
                target: l.subrange(target_start, target_end),
                host: find_host(t, 0),
            },
        )
    }
}

/// The HTTP request in a payload: none unless the payload is UTF-8 text.
pub open spec fn detected_http(payload: Seq<u8>) -> Option<HttpView> {
    if valid_utf8(payload) {
        http_request(decode_utf8(payload))
    } else {
        None
    }
}

/// Whether a payload starts as a TLS handshake record does: with the bytes
/// `0x16` and `0x03`.
pub open spec fn tls_signature(payload: Seq<u8>) -> bool {
    payload.len() >= 2 && payload[0] == 0x16 && payload[1] == 0x03
}

/// `std::str::from_utf8` gives the text of the bytes where they are valid
/// UTF-8, and an error, here `None`, where they are not.
#[verifier::external_body]
pub(crate) fn utf8_text(bytes: &[u8]) -> (text: Option<&str>)
    ensures
        text is Some <==> valid_utf8(bytes@),
        text is Some ==> text->Some_0@ == decode_utf8(bytes@),
{
    std::str::from_utf8(bytes).ok()
}

/// Whether a character separates tokens.
pub fn space(c: char) -> (b: bool)
    ensures
        b == is_space(c),
{
    c == ' ' || c == '\t' || c == '\n' || c == '\x0b' || c == '\x0c' || c == '\r'
}

/// Where the line that holds position `from` ends.
pub fn find_line_end(t: &Vec<char>, from: usize) -> (end: usize)
    requires
        from <= t@.len(),
    ensures
        end == line_end(t@, from as int),
        from <= end <= t@.len(),
{
    let mut i: usize = from;
    while i < t.len() && t[i] != '\n'
        invariant
            from <= i <= t@.len(),
            line_end(t@, from as int) == line_end(t@, i as int),
        decreases t@.len() - i,
    {
        i = i + 1;
    }
    i
}

/// The characters of `l` from `lo` up to, not including, `hi`.
pub fn copy_range(l: &Vec<char>, lo: usize, hi: usize) -> (part: Vec<char>)
    requires
        lo <= hi <= l@.len(),
    ensures
        part@ == l@.subrange(lo as int, hi as int),
{
    let mut part: Vec<char> = Vec::new();
    let mut i: usize = lo;
    while i < hi
        invariant
            lo <= i <= hi <= l@.len(),
            part@ == l@.subrange(lo as int, i as int),
        decreases hi - i,
    {
        part.push(l[i]);
        i = i + 1;
        assert(part@ =~= l@.subrange(lo as int, i as int));
    }
    part
}

/// The characters of `l` from `lo` up to, not including, `hi`, as text.
pub fn text_of(l: &Vec<char>, lo: usize, hi: usize) -> (part: String)
    requires
        lo <= hi <= l@.len(),
    ensures
        part@ == l@.subrange(lo as int, hi as int),
{
    let mut part = String::new();
    let mut i: usize = lo;
    assert(part@ =~= l@.subrange(lo as int, i as int));
    while i < hi
        invariant
            lo <= i <= hi <= l@.len(),
            part@ == l@.subrange(lo as int, i as int),
        decreases hi - i,
    {
        part.push(l[i]);
        i = i + 1;
        assert(part@ =~= l@.subrange(lo as int, i as int));
    }
    part
}

/// The line that starts at `from`, and where it ends in the text.
pub fn take_line(t: &Vec<char>, from: usize) -> (r: (Vec<char>, usize))
    requires
        from <= t@.len(),
    ensures
        r.0@ == line_at(t@, from as int),
        r.1 == line_end(t@, from as int),
        from <= r.1 <= t@.len(),
{
    let end = find_line_end(t, from);
    if end < t.len() && from < end && t[end - 1] == '\r' {
        (copy_range(t, from, end - 1), end)
    } else {
        (copy_range(t, from, end), end)
    }
}

/// The first position at or after `from` without a separator.
pub fn skip_spaces_from(l: &Vec<char>, from: usize) -> (at: usize)
    requires
        from <= l@.len(),
    ensures
        at == skip_spaces(l@, from as int),
        from <= at <= l@.len(),
{
    let mut i: usize = from;
    while i < l.len() && space(l[i])
        invariant
            from <= i <= l@.len(),
            skip_spaces(l@, from as int) == skip_spaces(l@, i as int),
        decreases l@.len() - i,
    {
        i = i + 1;
    }
    i
}

/// The first position at or after `from` with a separator.
pub fn find_token_end(l: &Vec<char>, from: usize) -> (at: usize)
    requires
        from <= l@.len(),
    ensures
        at == token_end(l@, from as int),
        from <= at <= l@.len(),
{
    let mut i: usize = from;
    while i < l.len() && !space(l[i])
        invariant
            from <= i <= l@.len(),
            token_end(l@, from as int) == token_end(l@, i as int),
        decreases l@.len() - i,
    {
        i = i + 1;
    }
    i
}

/// The line from `from` on, trimmed, as text.
pub fn trimmed_text(l: &Vec<char>, from: usize) -> (value: String)
    requires
        from <= l@.len(),
    ensures
        value@ == trimmed(l@, from as int),
{
    let lo = skip_spaces_from(l, from);
    let mut hi: usize = l.len();
    while hi > lo && space(l[hi - 1])
        invariant
            lo <= hi <= l@.len(),
            trim_end(l@, lo as int, l@.len() as int) == trim_end(l@, lo as int, hi as int),
        decreases hi - lo,
    {
        hi = hi - 1;
    }
    text_of(l, lo, hi)
}

/// Whether the line begins with the characters of `prefix`.
pub fn has_prefix(l: &Vec<char>, prefix: &str) -> (b: bool)
    ensures
        b == prefix@.is_prefix_of(l@),
{
    let n = prefix.unicode_len();
    if n > l.len() {
        return false;
    }
    let mut i: usize = 0;
    while i < n
        invariant
            i <= n,
            n == prefix@.len(),
            n <= l@.len(),
            forall|k: int| 0 <= k < i ==> prefix@[k] == l@[k],
        decreases n - i,
    {
        if prefix.get_char(i) != l[i] {
            assert(l@.subrange(0, n as int)[i as int] != prefix@[i as int]);
            return false;
        }
        i = i + 1;
    }
    assert(prefix@ =~= l@.subrange(0, n as int));
    true
}

/// Whether the line begins with one of the HTTP method tokens.
pub fn known_method(l: &Vec<char>) -> (b: bool)
    ensures
        b == begins_with_method(l@),
{
    has_prefix(l, "GET") || has_prefix(l, "POST") || has_prefix(l, "PUT") || has_prefix(
        l,
        "DELETE",
    ) || has_prefix(l, "HEAD") || has_prefix(l, "OPTIONS") || has_prefix(l, "PATCH") || has_prefix(
        l,
        "CONNECT",
    ) || has_prefix(l, "TRACE")
}

/// Whether the line begins with `host:`, in upper or lower case.
pub fn host_line(l: &Vec<char>) -> (b: bool)
    ensures
        b == is_host_line(l@),
{
    l.len() >= 5 && (l[0] == 'h' || l[0] == 'H') && (l[1] == 'o' || l[1] == 'O') && (l[2] == 's'
        || l[2] == 'S') && (l[3] == 't' || l[3] == 'T') && l[4] == ':'
}

/// The trimmed value of the first line that begins with `host:`.
pub fn scan_host(t: &Vec<char>) -> (host: Option<String>)
    ensures
        match host {
            Some(h) => find_host(t@, 0) == Some(h@),
            None => find_host(t@, 0) is None,
        },
{
    let mut from: usize = 0;
    while from < t.len()
        invariant
            from <= t@.len(),
            find_host(t@, 0) == find_host(t@, from as int),
        decreases t@.len() - from,
    {
        let (l, end) = take_line(t, from);
        if host_line(&l) {
            return Some(trimmed_text(&l, 5));
        }
        if end == t.len() {
            return None;
        }
        from = end + 1;
    }
    None
}

/// The HTTP request in a text.
pub fn http_in_text(t: &Vec<char>) -> (found: Option<HttpRequest>)
    ensures
        http_view(found) == http_request(t@),
{
    let (l, end) = take_line(t, 0);
    if !known_method(&l) {
        return None;
    }
    let method_end = find_token_end(&l, 0);
    let target_start = skip_spaces_from(&l, method_end);
    if target_start >= l.len() {
        return None;
    }
    let target_end = find_token_end(&l, target_start);
    let method = text_of(&l, 0, method_end);
    let target = text_of(&l, target_start, target_end);
    let host = scan_host(t);
    Some(HttpRequest { method, target, host })
}

/// Looks for an HTTP request in a payload: the payload must be UTF-8 text
/// whose first line begins with a method token and has a second token.
pub fn detect_http(payload: &[u8]) -> (found: Option<HttpRequest>)
    ensures
        http_view(found) == detected_http(payload@),
{
    match utf8_text(payload) {
        Some(text) => {
            let t = chars_of(text);
            http_in_text(&t)
        },
        None => None,
    }
}

/// Whether a payload starts as a TLS handshake record does, whatever
/// follows and whether or not it is text.
pub fn is_tls_handshake(payload: &[u8]) -> (b: bool)
    ensures
        b == tls_signature(payload@),
{
    payload.len() >= 2 && payload[0] == 0x16 && payload[1] == 0x03
}

/// What the two looks at a frame's payload found.
#[derive(Debug)]
pub struct Findings {
    pub http: Option<HttpRequest>,
    pub tls_handshake: bool,
}

/// Whether the payload of these layers is looked at: only a TCP payload
/// that is not empty.
pub open spec fn inspected(layers: Option<LayersView>) -> bool {
    match layers {
        Some(l) => l.transport is Tcp && l.payload.len() > 0,
        None => false,
    }
}

/// Looks at the payload of a frame's layers. Nothing is found where the
/// frame was not sliced, is not TCP, or has an empty payload.
pub fn inspect(layers: &Option<Layers>) -> (found: Findings)
    ensures
        http_view(found.http) == (if inspected(layers_view(*layers)) {
            detected_http(layers->Some_0.payload@)
        } else {
            None
        }),
        found.tls_handshake == (inspected(layers_view(*layers)) && tls_signature(
            layers->Some_0.payload@,
        )),
{
    match layers {
        Some(l) => {
            let tcp = match l.transport {
                Transport::Tcp { destination_port } => true,
                _ => false,
            };
            if tcp && l.payload.len() > 0 {
                Findings {
                    http: detect_http(l.payload.as_slice()),
                    tls_handshake: is_tls_handshake(l.payload.as_slice()),
                }
            } else {
                Findings { http: None, tls_handshake: false }
            }
        },
        None => Findings { http: None, tls_handshake: false },
    }
}

/// What there is to find in the payload of given layers.
pub open spec fn found_http(layers: Option<LayersView>) -> Option<HttpView> {
    if inspected(layers) {
        detected_http(layers->Some_0.payload)
    } else {
        None
    }
}

/// Slices a frame and looks at its payload.
pub fn inspect_frame(frame: &[u8]) -> (found: Findings)
    ensures
        http_view(found.http) == found_http(sliced_layers(frame@)),
        found.tls_handshake == (inspected(sliced_layers(frame@)) && tls_signature(
            sliced_layers(frame@)->Some_0.payload,
        )),
{
    let layers = slice_ethernet(frame);
    inspect(&layers)
}

} // verus!
