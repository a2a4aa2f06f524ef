//! Target address parsing.
//!
//! A target is written `scheme://host[:port][/path]`. The scheme is the
//! text before the first `:`, which must be followed by `//`; the
//! authority runs to the next `/` (or the end) and may end in a decimal
//! port; the rest is the path. A host may be a bracketed IPv6 literal
//! such as `[::1]`, whose colons do not start the port. A string of any
//! other shape is a fatal construction error.

use vstd::prelude::*;

use crate::errors::Error;
use crate::strnum::{all_digits, digit_of, digits_val, is_digit, lemma_digits_val_prefix};

verus! {

/// The index of the first occurrence of `c` in `s` at or after `i`.
pub open spec fn find_from(s: Seq<char>, c: char, i: int) -> Option<int>
    decreases s.len() - i,
{
    if i < 0 || i >= s.len() {
        None
    } else if s[i] == c {
        Some(i)
    } else {
        find_from(s, c, i + 1)
    }
}

/// The four parts of a parsed target address.
pub struct AddrModel {
    /// The scheme, before `://`.
    pub scheme: Seq<char>,
    /// The host, between `://` and the port or path.
    pub host: Seq<char>,
    /// The explicit port, if the authority ends in `:digits`.
    pub port: Option<u16>,
    /// The path, from the first `/` after the authority; empty if none.
    pub path: Seq<char>,
}

/// Splits an authority into host and optional port: the host is either a
/// bracketed literal ending at the first `]`, or everything before the
/// first `:`; what follows a `:` after the host must be a decimal port up
/// to 65535.
pub open spec fn spec_parse_authority(authority: Seq<char>) -> Option<(Seq<char>, Option<u16>)> {
    if authority.len() > 0 && authority[0] == '[' {
        match find_from(authority, ']', 0) {
            Option::None => Option::None,
            Option::Some(rb) => {
                let host = authority.subrange(0, rb + 1);
                if rb + 1 == authority.len() {
                    Option::Some((host, Option::None))
                } else if authority[rb + 1] == ':' {
                    let digits = authority.subrange(rb + 2, authority.len() as int);
                    if digits.len() > 0 && all_digits(digits) && digits_val(digits) <= 65535 {
                        Option::Some((host, Option::Some(digits_val(digits) as u16)))
                    } else {
                        Option::None
                    }
                } else {
                    Option::None
                }
            },
        }
    } else {
        match find_from(authority, ':', 0) {
            Option::None => Option::Some((authority, Option::None)),
            Option::Some(k) => {
                let digits = authority.subrange(k + 1, authority.len() as int);
                if digits.len() > 0 && all_digits(digits) && digits_val(digits) <= 65535 {
                    Option::Some(
                        (authority.subrange(0, k), Option::Some(digits_val(digits) as u16)),
                    )
                } else {
                    Option::None
                }
            },
        }
    }
}

/// Parses a target address, or `None` if it is malformed: no `://`, an
/// empty scheme, an unclosed bracket, or a port that is not a decimal
/// number up to 65535.
pub open spec fn spec_parse_addr(s: Seq<char>) -> Option<AddrModel> {
    match find_from(s, ':', 0) {
        Option::None => Option::None,
        Option::Some(i) => {
            if i == 0 || i + 3 > s.len() || s[i + 1] != '/' || s[i + 2] != '/' {
                Option::None
            } else {
                let scheme = s.subrange(0, i);
                let j = match find_from(s, '/', i + 3) {
                    Option::None => s.len() as int,
                    Option::Some(j) => j,
                };
                let authority = s.subrange(i + 3, j);
                let path = s.subrange(j, s.len() as int);
                match spec_parse_authority(authority) {
                    Option::None => Option::None,
                    Option::Some((host, port)) => Option::Some(
                        AddrModel { scheme, host, port, path },
                    ),
                }
            }
        },
    }
}

/// A found character lies in range, matches, and nothing before it does.
proof fn lemma_find_from_props(s: Seq<char>, c: char, from: int, i: int)
    requires
        0 <= from,
        find_from(s, c, from) == Option::Some(i),
    ensures
        from <= i < s.len(),
        s[i] == c,
        forall|j: int| from <= j < i ==> s[j] != c,
    decreases s.len() - from,
{
    if from < s.len() && s[from] != c {
        lemma_find_from_props(s, c, from + 1, i);
    }
}

/// A parsed address decomposes its input: the input is exactly the scheme,
/// `://`, the host, the optional `:port` written in decimal, and the path.
pub proof fn lemma_parse_addr_sound(s: Seq<char>, m: AddrModel)
    requires
        spec_parse_addr(s) == Option::Some(m),
    ensures
        m.scheme.len() > 0,
        !m.scheme.contains(':'),
        m.port is None ==> s == m.scheme + "://"@ + m.host + m.path,
        m.port matches Some(p) ==> exists|d: Seq<char>|
            all_digits(d) && d.len() > 0 && #[trigger] digits_val(d) == p && s == m.scheme + "://"@
                + m.host + seq![':'] + d + m.path,
{
    reveal_strlit("://");
    assert("://"@ =~= seq![':', '/', '/']);
    let i = find_from(s, ':', 0).unwrap();
    lemma_find_from_props(s, ':', 0, i);
    assert(forall|j: int| 0 <= j < i ==> m.scheme[j] != ':');
    let j = match find_from(s, '/', i + 3) {
        Option::None => s.len() as int,
        Option::Some(j) => j,
    };
    if find_from(s, '/', i + 3) is Some {
        lemma_find_from_props(s, '/', i + 3, j);
    }
    let authority = s.subrange(i + 3, j);
    let path = s.subrange(j, s.len() as int);
    if authority.len() > 0 && authority[0] == '[' {
        let rb = find_from(authority, ']', 0).unwrap();
        lemma_find_from_props(authority, ']', 0, rb);
        if rb + 1 == authority.len() {
            assert(s =~= m.scheme + seq![':', '/', '/'] + m.host + m.path);
        } else {
            let d = authority.subrange(rb + 2, authority.len() as int);
            assert(s =~= m.scheme + seq![':', '/', '/'] + m.host + seq![':'] + d + m.path);
            assert(all_digits(d) && d.len() > 0 && digits_val(d) == m.port.unwrap());
        }
    } else {
        match find_from(authority, ':', 0) {
            Option::None => {
                assert(s =~= m.scheme + seq![':', '/', '/'] + m.host + m.path);
            },
            Option::Some(k) => {
                lemma_find_from_props(authority, ':', 0, k);
                let d = authority.subrange(k + 1, authority.len() as int);
                assert(s =~= m.scheme + seq![':', '/', '/'] + m.host + seq![':'] + d + m.path);
                assert(all_digits(d) && d.len() > 0 && digits_val(d) == m.port.unwrap());
            },
        }
    }
}

/// A parsed target address, ready for transport selection.
pub struct HostSpec {
    /// The scheme, before `://`.
    pub scheme: String,
    /// The host, between `://` and the port or path.
    pub host: String,
    /// The explicit port, if any.
    pub port: Option<u16>,
    /// The path; empty if the address has none.
    pub path: String,
}

impl View for HostSpec {
    type V = AddrModel;

    open spec fn view(&self) -> AddrModel {
        AddrModel { scheme: self.scheme@, host: self.host@, port: self.port, path: self.path@ }
    }
}

/// The index of the first occurrence of `c` in `s` at or after `start`.
fn find_char(s: &str, c: char, start: usize) -> (r: Option<usize>)
    requires
        start <= s@.len(),
    ensures
        match r {
            Option::Some(i) => find_from(s@, c, start as int) == Option::Some(i as int)
                && start <= i < s@.len(),
            Option::None => find_from(s@, c, start as int) is None,
        },
{
    let n = s.unicode_len();
    let mut i = start;
    while i < n
        invariant
            start <= i <= n,
            n == s@.len(),
            find_from(s@, c, start as int) == find_from(s@, c, i as int),
        decreases n - i,
    {
        if s.get_char(i) == c {
            return Some(i);
        }
        i += 1;
    }
    None
}

/// The numeric value of a digit character, if it is one.
fn char_digit(c: char) -> (r: Option<u64>)
    ensures
        r is Some <==> is_digit(c),
        r matches Some(d) ==> d == digit_of(c) && d < 10,
{
    match c {
        '0' => Some(0),
        '1' => Some(1),
        '2' => Some(2),
        '3' => Some(3),
        '4' => Some(4),
        '5' => Some(5),
        '6' => Some(6),
        '7' => Some(7),
        '8' => Some(8),
        '9' => Some(9),
        _ => None,
    }
}

/// Parses a port: a non-empty run of decimal digits valued at most 65535.
fn parse_port(s: &str) -> (r: Option<u16>)
    ensures
        r is Some <==> (s@.len() > 0 && all_digits(s@) && digits_val(s@) <= 65535),
        r matches Some(p) ==> p == digits_val(s@),
{
    let n = s.unicode_len();
    if n == 0 {
        return None;
    }
    let mut acc: u64 = 0;
    let mut i: usize = 0;
    while i < n
        invariant
            0 <= i <= n,
            n == s@.len(),
            all_digits(s@.subrange(0, i as int)),
            acc == digits_val(s@.subrange(0, i as int)),
            acc <= 65535,
        decreases n - i,
    {
        let c = s.get_char(i);
        let d = match char_digit(c) {
            Some(d) => d,
            None => {
                return None;
            },
        };
        proof {
            assert(s@.subrange(0, i + 1).drop_last() =~= s@.subrange(0, i as int));
            assert(s@.subrange(0, i + 1).last() == c);
        }
        acc = acc * 10 + d;
        i += 1;
        if acc > 65535 {
            proof {
                lemma_digits_val_prefix(s@, i as int);
            }
            return None;
        }
    }
    proof {
        assert(s@.subrange(0, n as int) =~= s@);
    }
    Some(acc as u16)
}

/// Splits an authority into host and optional port, handling the
/// bracketed IPv6 host form.
fn parse_authority(authority: &str) -> (r: Option<(String, Option<u16>)>)
    ensures
        match spec_parse_authority(authority@) {
            Option::Some((h, p)) => r matches Some(hp) && hp.0@ == h && hp.1 == p,
            Option::None => r is None,
        },
{
    let alen = authority.unicode_len();
    if alen > 0 && authority.get_char(0) == '[' {
        match find_char(authority, ']', 0) {
            None => None,
            Some(rb) => {
                let host = authority.substring_char(0, rb + 1).to_owned();
                if rb + 1 == alen {
                    Some((host, None))
                } else if authority.get_char(rb + 1) == ':' {
                    let digits = authority.substring_char(rb + 2, alen);
                    match parse_port(digits) {
                        Some(p) => Some((host, Some(p))),
                        None => None,
                    }
                } else {
                    None
                }
            },
        }
    } else {
        match find_char(authority, ':', 0) {
            None => Some((authority.to_owned(), None)),
            Some(k) => {
                let host = authority.substring_char(0, k).to_owned();
                let digits = authority.substring_char(k + 1, alen);
                match parse_port(digits) {
                    Some(p) => Some((host, Some(p))),
                    None => None,
                }
            },
        }
    }
}

/// Parses a target address into its four parts, or reports exactly the
/// malformed addresses with [`Error::InvalidAddress`].
pub fn parse_addr(s: &str) -> (r: Result<HostSpec, Error>)
    ensures
        match spec_parse_addr(s@) {
            Option::Some(m) => r matches Ok(h) && h@ == m,
            Option::None => r matches Err(e) && e is InvalidAddress,
        },
{
    let n = s.unicode_len();
    let i = match find_char(s, ':', 0) {
        Some(i) => i,
        None => {
            return Err(Error::InvalidAddress);
        },
    };
    if i == 0 || n - i < 3 {
        return Err(Error::InvalidAddress);
    }
    if s.get_char(i + 1) != '/' || s.get_char(i + 2) != '/' {
        return Err(Error::InvalidAddress);
    }
    let scheme = s.substring_char(0, i).to_owned();
    let j = match find_char(s, '/', i + 3) {
        Some(j) => j,
        None => n,
    };
    let authority = s.substring_char(i + 3, j);
    let path = s.substring_char(j, n).to_owned();
    match parse_authority(authority) {
        Some((host, port)) => Ok(HostSpec { scheme, host, port, path }),
        None => Err(Error::InvalidAddress),
    }
}

} // verus!
