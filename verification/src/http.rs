//! Where an HTTP proxy is, from the text that names it.

use vstd::prelude::*;
use vstd::string::StrSliceExecFns;
use crate::strip::chars_of;

verus! {

/// The port that a proxy listens on where its text names none.
pub const DEFAULT_PROXY_PORT: u16 = 80;

/// A proxy to send requests through.
#[derive(Debug, Clone, PartialEq, Eq)]
pub struct ProxyEndpoint {
    pub host: String,
    pub port: u16,
}

pub struct ProxyEndpointView {
    pub host: Seq<char>,
    pub port: u16,
}

impl View for ProxyEndpoint {
    type V = ProxyEndpointView;

    open spec fn view(&self) -> ProxyEndpointView {
        ProxyEndpointView { host: self.host@, port: self.port }
    }
}

pub open spec fn is_digit(c: char) -> bool {
    '0' <= c && c <= '9'
}

/// Is the text made of decimal digits, and of nothing else?
pub open spec fn is_digits(text: Seq<char>) -> bool {
    forall|i: int| 0 <= i < text.len() ==> is_digit(#[trigger] text[i])
}

/// The number that a run of decimal digits stands for.
pub open spec fn decimal(digits: Seq<char>) -> nat
    decreases digits.len(),
{
    if digits.len() == 0 {
        0
    } else {
        (decimal(digits.drop_last()) * 10 + (digits.last() as u32 - '0' as u32)) as nat
    }
}

/// The text without one plus sign in front of it.
pub open spec fn unsigned(text: Seq<char>) -> Seq<char> {
    if text.len() > 0 && text[0] == '+' {
        text.skip(1)
    } else {
        text
    }
}

/// The port that a text names: one decimal digit or more, after at most one
/// plus sign, for a number of at most 65535.
pub open spec fn port_named(text: Seq<char>) -> Option<u16> {
    let digits = unsigned(text);
    if digits.len() > 0 && is_digits(digits) && decimal(digits) <= u16::MAX {
        Some(decimal(digits) as u16)
    } else {
        None
    }
}

/// Where the last colon of `text` stands; -1 where it has none.
pub open spec fn last_colon(text: Seq<char>) -> int
    decreases text.len(),
{
    if text.len() == 0 {
        -1
    } else if text.last() == ':' {
        text.len() - 1
    } else {
        last_colon(text.drop_last())
    }
}

/// Where the proxy named by `text` is. The host is what stands before the
/// last colon and the port what stands behind it; without a colon the text
/// is the host, and the port is 80. `None` where what stands behind the
/// colon names no port.
pub open spec fn endpoint_named(text: Seq<char>) -> Option<ProxyEndpointView> {
    let colon = last_colon(text);
    if colon < 0 {
        Some(ProxyEndpointView { host: text, port: DEFAULT_PROXY_PORT })
    } else {
        match port_named(text.skip(colon + 1)) {
            Some(port) => Some(ProxyEndpointView { host: text.take(colon), port }),
            None => None,
        }
    }
}

/// The last colon stands behind every other, and where there is none the
/// text holds none.
pub proof fn lemma_last_colon(text: Seq<char>)
    ensures
        -1 <= last_colon(text) < text.len(),
        last_colon(text) >= 0 ==> text[last_colon(text)] == ':',
        forall|i: int| last_colon(text) < i < text.len() ==> text[i] != ':',
    decreases text.len(),
{
    if text.len() > 0 && text.last() != ':' {
        let shorter = text.drop_last();
        lemma_last_colon(shorter);
        assert forall|i: int| last_colon(text) < i < text.len() implies text[i] != ':' by {
            if i < shorter.len() {
                assert(text[i] == shorter[i]);
            }
        }
    }
}

/// A colon with none behind it is the last.
pub proof fn lemma_last_colon_found(text: Seq<char>, at: int)
    requires
        -1 <= at < text.len(),
        at >= 0 ==> text[at] == ':',
        forall|i: int| at < i < text.len() ==> text[i] != ':',
    ensures
        last_colon(text) == at,
{
    lemma_last_colon(text);
}

/// Digits add up: a longer run stands for at least what its beginning
/// stands for.
pub proof fn lemma_decimal_grows(digits: Seq<char>, n: int)
    requires
        0 <= n <= digits.len(),
        is_digits(digits),
    ensures
        decimal(digits.take(n)) <= decimal(digits),
    decreases digits.len(),
{
    if n < digits.len() {
        let shorter = digits.drop_last();
        assert(is_digits(shorter)) by {
            assert forall|i: int| 0 <= i < shorter.len() implies is_digit(
                #[trigger] shorter[i],
            ) by {
                assert(shorter[i] == digits[i]);
            }
        }
        lemma_decimal_grows(shorter, n);
        assert(shorter.take(n) == digits.take(n));
        assert(is_digit(digits[digits.len() - 1]));
    } else {
        assert(digits.take(n) == digits);
    }
}

/// Reads a port number.
pub fn parse_port(text: &str) -> (port: Option<u16>)
    ensures
        port == port_named(text@),
{
    let chars = chars_of(text);
    let n = chars.len();
    let start: usize = if n > 0 && chars[0] == '+' {
        1
    } else {
        0
    };
    let ghost digits = unsigned(chars@);
    assert(digits == chars@.skip(start as int));
    if start == n {
        return None;
    }
    let mut value: u32 = 0;
    let mut i: usize = start;
    while i < n
        invariant
            start <= i <= n,
            n == chars@.len(),
            digits == unsigned(text@),
            digits == chars@.skip(start as int),
            is_digits(digits.take(i - start)),
            value == decimal(digits.take(i - start)),
            value <= u16::MAX,
        decreases n - i,
    {
        let c = chars[i];
        let ghost seen = digits.take(i - start);
        let ghost more = digits.take(i - start + 1);
        proof {
            assert(digits[i - start] == c);
            assert(more.drop_last() == seen);
            assert(more.last() == c);
        }
        if c < '0' || c > '9' {
            assert(!is_digits(digits)) by {
                assert(!is_digit(digits[i - start]));
            }
            return None;
        }
        let digit: u32 = c as u32 - '0' as u32;
        assert(is_digits(more)) by {
            assert forall|k: int| 0 <= k < more.len() implies is_digit(#[trigger] more[k]) by {
                if k < seen.len() {
                    assert(more[k] == seen[k]);
                }
            }
        }
        let next: u32 = value * 10 + digit;
        assert(decimal(more) == next);
        if next > 65535 {
            proof {
                if is_digits(digits) {
                    lemma_decimal_grows(digits, i - start + 1);
                }
            }
            return None;
        }
        value = next;
        i = i + 1;
    }
    assert(digits.take(n - start) == digits);
    Some(value as u16)
}

/// Reads where a proxy is, as `host:port` or as a host alone. `None` where
/// what stands behind the last colon is no port.
pub fn proxy_endpoint(proxy: &str) -> (endpoint: Option<ProxyEndpoint>)
    ensures
        endpoint_named(proxy@) == match endpoint {
            Some(e) => Some(e@),
            None => None,
        },
{
    let chars = chars_of(proxy);
    let n = chars.len();
    let mut at: usize = n;
    while at > 0 && chars[at - 1] != ':'
        invariant
            at <= n,
            n == chars@.len(),
            forall|i: int| at <= i < n ==> chars@[i] != ':',
        decreases at,
    {
        at = at - 1;
    }
    proof {
        lemma_last_colon_found(proxy@, at - 1);
    }
    if at == 0 {
        return Some(ProxyEndpoint { host: proxy.to_owned(), port: DEFAULT_PROXY_PORT });
    }
    let colon: usize = at - 1;
    let port_text = proxy.substring_char(at, n);
    assert(port_text@ == proxy@.skip(colon + 1));
    match parse_port(port_text) {
        Some(port) => {
            let host = proxy.substring_char(0, colon).to_owned();
            assert(host@ == proxy@.take(colon as int));
            Some(ProxyEndpoint { host, port })
        },
        None => None,
    }
}

/// Where the proxy named by `proxy` is, for a text that names one.
///
/// A text whose part behind the last colon is no port names none and is
/// left out; `proxy_endpoint` tells.
pub fn proxy_endpoint_of(proxy: &str) -> (endpoint: ProxyEndpoint)
    requires
        endpoint_named(proxy@) is Some,
    ensures
        Some(endpoint@) == endpoint_named(proxy@),
{
    proxy_endpoint(proxy).unwrap()
}

} // verus!
