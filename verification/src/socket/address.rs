//! A receiver's own address, given as "address:port" text, and the
//! message with which it joins or leaves a caster.

use vstd::prelude::*;
use vstd::string::*;
use crate::socket::codec::{Action, RegistrationMessage};
use crate::socket::viewers::{decimal, digit_char, endpoint, RECEIVER_PORT};

verus! {

/// Why a receiver could not register with a caster.
#[derive(Debug)]
pub enum RegistrationError {
    InvalidIp,
    PortParsingError,
    SocketNotInitialized,
    ConnectionReset,
    NetworkUnreachable,
    UnknownError(String),
}

/// Index of the first `c` at or after `from` in `s`, or the length of `s`
/// when there is none.
pub open spec fn find_char(s: Seq<char>, c: char, from: int) -> int
    decreases s.len() - from,
{
    if from >= s.len() {
        s.len() as int
    } else if s[from] == c {
        from
    } else {
        find_char(s, c, from + 1)
    }
}

/// The text before the first colon (all of `s` when there is none): what
/// the first piece of splitting `s` at colons gives.
pub open spec fn host_part(s: Seq<char>) -> Seq<char> {
    s.subrange(0, find_char(s, ':', 0))
}

/// The text between the first and the second colon (or the end): the
/// second piece of splitting `s` at colons, absent when `s` has no colon.
pub open spec fn port_part(s: Seq<char>) -> Option<Seq<char>> {
    let k = find_char(s, ':', 0);
    if k >= s.len() {
        None
    } else {
        let rest = s.subrange(k + 1, s.len() as int);
        Some(rest.subrange(0, find_char(rest, ':', 0)))
    }
}

pub open spec fn is_digit(c: char) -> bool {
    '0' <= c && c <= '9'
}

/// Value of a text made of decimal digits only.
pub open spec fn digits_value(d: Seq<char>) -> nat
    decreases d.len(),
{
    if d.len() == 0 {
        0
    } else {
        digits_value(d.drop_last()) * 10 + (d.last() as nat - 48) as nat
    }
}

/// The text after an optional leading `+`.
pub open spec fn unsigned_digits(s: Seq<char>) -> Seq<char> {
    if s.len() > 0 && s[0] == '+' { s.drop_first() } else { s }
}

pub open spec fn all_digits(d: Seq<char>) -> bool {
    forall|i: int| 0 <= i < d.len() ==> #[trigger] is_digit(d[i])
}

/// What parsing `s` as a `u16` gives: an optional `+`, then at least one
/// decimal digit and nothing else, with a value that fits 16 bits.
pub open spec fn parse_u16(s: Seq<char>) -> Option<u16> {
    let d = unsigned_digits(s);
    if d.len() > 0 && all_digits(d) && digits_value(d) <= u16::MAX {
        Some(digits_value(d) as u16)
    } else {
        None
    }
}

/// The host and port that the receiver address `s` gives, or why it gives
/// none.
pub open spec fn endpoint_of(s: Seq<char>) -> Result<(Seq<char>, u16), RegistrationError> {
    match port_part(s) {
        None => Err(RegistrationError::InvalidIp),
        Some(p) => match parse_u16(p) {
            None => Err(RegistrationError::PortParsingError),
            Some(port) => Ok((host_part(s), port)),
        },
    }
}

fn find_colon(s: &str, from: usize) -> (k: usize)
    requires
        from <= s@.len(),
    ensures
        k == find_char(s@, ':', from as int),
    decreases s@.len() - from,
{
    let n = s.unicode_len();
    if from >= n {
        n
    } else if s.get_char(from) == ':' {
        from
    } else {
        find_colon(s, from + 1)
    }
}

proof fn lemma_find_char_bounds(s: Seq<char>, c: char, from: int)
    requires
        0 <= from <= s.len(),
    ensures
        from <= find_char(s, c, from) <= s.len(),
    decreases s.len() - from,
{
    if from < s.len() && s[from] != c {
        lemma_find_char_bounds(s, c, from + 1);
    }
}

proof fn lemma_digits_value_saturates(d: Seq<char>)
    requires
        d.len() > 0,
        all_digits(d),
    ensures
        digits_value(d) == digits_value(d.drop_last()) * 10 + (d.last() as nat - 48),
        digits_value(d.drop_last()) > u16::MAX ==> digits_value(d) > u16::MAX,
{
    assert(is_digit(d[d.len() - 1]));
}

/// Parses a port number as `u16::from_str` does.
pub fn parse_port(s: &str) -> (port: Option<u16>)
    ensures
        port == parse_u16(s@),
{
    let n = s.unicode_len();
    let start: usize = if n > 0 && s.get_char(0) == '+' { 1 } else { 0 };
    let ghost d = unsigned_digits(s@);
    assert(d =~= s@.subrange(start as int, n as int));
    if start >= n {
        return None;
    }
    let mut value: u32 = 0;
    let mut i = start;
    while i < n
        invariant
            n == s@.len(),
            start <= i <= n,
            d == unsigned_digits(s@),
            d =~= s@.subrange(start as int, n as int),
            forall|k: int| start <= k < i ==> #[trigger] is_digit(s@[k]),
            value == if digits_value(s@.subrange(start as int, i as int)) > u16::MAX {
                (u16::MAX + 1) as nat
            } else {
                digits_value(s@.subrange(start as int, i as int))
            },
        decreases n - i,
    {
        let c = s.get_char(i);
        if !('0' <= c && c <= '9') {
            proof {
                assert(d[i - start] == c);
                assert(!is_digit(d[i - start]));
            }
            return None;
        }
        let digit = (c as u32) - 48;
        proof {
            let pre = s@.subrange(start as int, i as int);
            let next = s@.subrange(start as int, i + 1);
            assert(next.drop_last() =~= pre);
            assert(next.last() == c);
            assert forall|k: int| 0 <= k < next.len() implies #[trigger] is_digit(next[k]) by {
                assert(next[k] == s@[start + k]);
            }
            assert(all_digits(next));
            lemma_digits_value_saturates(next);
        }
        value = if value > 65535 { 65536 } else {
            let v = value * 10 + digit;
            if v > 65535 { 65536 } else { v }
        };
        i = i + 1;
    }
    assert(s@.subrange(start as int, n as int) =~= d);
    assert forall|k: int| 0 <= k < d.len() implies #[trigger] is_digit(d[k]) by {
        assert(d[k] == s@[start + k]);
    }
    if value > 65535 {
        None
    } else {
        Some(value as u16)
    }
}

/// Splits a receiver's "address:port" text into its host and port.
pub fn split_endpoint(s: &str) -> (r: Result<(String, u16), RegistrationError>)
    ensures
        match r {
            Ok((host, port)) => endpoint_of(s@) == Ok::<(Seq<char>, u16), RegistrationError>((host@, port)),
            Err(e) => endpoint_of(s@) == Err::<(Seq<char>, u16), RegistrationError>(e),
        },
{
    let n = s.unicode_len();
    let k = find_colon(s, 0);
    proof {
        lemma_find_char_bounds(s@, ':', 0);
    }
    if k >= n {
        return Err(RegistrationError::InvalidIp);
    }
    let rest = s.substring_char(k + 1, n);
    let k2 = find_colon(rest, 0);
    proof {
        lemma_find_char_bounds(rest@, ':', 0);
    }
    let port_text = rest.substring_char(0, k2);
    match parse_port(port_text) {
        None => Err(RegistrationError::PortParsingError),
        Some(port) => {
            let host = String::from_str(s.substring_char(0, k));
            Ok((host, port))
        },
    }
}

/// The message with which the receiver at `ip_addr` asks the caster for
/// `action`.
pub fn registration_request(ip_addr: &str, action: Action) -> (r: Result<RegistrationMessage, RegistrationError>)
    ensures
        match r {
            Ok(m) => endpoint_of(ip_addr@) == Ok::<(Seq<char>, u16), RegistrationError>((m.ip@, m.port))
                && m.action == action,
            Err(e) => endpoint_of(ip_addr@) == Err::<(Seq<char>, u16), RegistrationError>(e),
        },
{
    match split_endpoint(ip_addr) {
        Ok((ip, port)) => Ok(RegistrationMessage::new(ip, port, action)),
        Err(e) => Err(e),
    }
}


proof fn lemma_decimal_digits(n: nat)
    ensures
        decimal(n).len() > 0,
        all_digits(decimal(n)),
        digits_value(decimal(n)) == n,
    decreases n,
{
    let d = decimal(n);
    if n < 10 {
        let c = digit_char(n as int);
        assert(c as nat == 48 + n);
        assert(d =~= seq![c]);
        assert(d.drop_last() =~= Seq::<char>::empty());
        assert(digits_value(d.drop_last()) == 0);
        assert(d.last() == c);
        assert(digits_value(d) == (c as nat - 48) as nat);
        assert(is_digit(d[0]));
    } else {
        lemma_decimal_digits(n / 10);
        let c = digit_char((n % 10) as int);
        assert(c as nat == 48 + n % 10);
        assert(d.drop_last() =~= decimal(n / 10));
        assert(d.last() == c);
        assert forall|i: int| 0 <= i < d.len() implies #[trigger] is_digit(d[i]) by {
            if i < d.len() - 1 {
                assert(d[i] == decimal(n / 10)[i]);
                assert(is_digit(decimal(n / 10)[i]));
            }
        }
        assert(digits_value(d) == digits_value(decimal(n / 10)) * 10 + (c as nat - 48) as nat);
        assert((n / 10) * 10 + n % 10 == n);
    }
}

proof fn lemma_find_colon_after(ip: Seq<char>, tail: Seq<char>, from: int)
    requires
        0 <= from <= ip.len(),
        forall|i: int| 0 <= i < ip.len() ==> #[trigger] ip[i] != ':',
    ensures
        find_char(ip + seq![':'] + tail, ':', from) == ip.len(),
    decreases ip.len() - from,
{
    let s = ip + seq![':'] + tail;
    if from < ip.len() {
        assert(s[from] == ip[from]);
        lemma_find_colon_after(ip, tail, from + 1);
    } else {
        assert(s[from] == ':');
    }
}

proof fn lemma_no_colon(d: Seq<char>, from: int)
    requires
        0 <= from <= d.len(),
        all_digits(d),
    ensures
        find_char(d, ':', from) == d.len(),
    decreases d.len() - from,
{
    if from < d.len() {
        assert(is_digit(d[from]));
        lemma_no_colon(d, from + 1);
    }
}

proof fn lemma_endpoint_parts(ip: Seq<char>, dec: Seq<char>)
    requires
        forall|i: int| 0 <= i < ip.len() ==> #[trigger] ip[i] != ':',
        all_digits(dec),
    ensures
        host_part(ip + seq![':'] + dec) == ip,
        port_part(ip + seq![':'] + dec) == Some(dec),
{
    let s = ip + seq![':'] + dec;
    lemma_find_colon_after(ip, dec, 0);
    assert(host_part(s) =~= ip);
    let rest = s.subrange(ip.len() as int + 1, s.len() as int);
    assert(rest =~= dec);
    lemma_no_colon(dec, 0);
    assert(rest.subrange(0, find_char(rest, ':', 0)) =~= dec);
}

/// The "address:port" text under which a caster knows a receiver splits
/// back into that address and port, when the address has no colon.
pub proof fn lemma_endpoint_roundtrip(ip: Seq<char>, port: u16)
    requires
        forall|i: int| 0 <= i < ip.len() ==> #[trigger] ip[i] != ':',
    ensures
        endpoint_of(endpoint(ip, port)) == Ok::<(Seq<char>, u16), RegistrationError>((ip, port)),
{
    let dec = decimal(port as nat);
    lemma_decimal_digits(port as nat);
    lemma_endpoint_parts(ip, dec);
    assert(is_digit(dec[0]));
    assert(unsigned_digits(dec) == dec);
    assert(parse_u16(dec) == Some(port));
}


/// A receiver registers under the address its socket is bound to: the text
/// `receiver_endpoints` gives it splits into its own address and the
/// receiver's port, which the registration message then carries.
pub proof fn lemma_receiver_registers_its_endpoint(local_ip: Seq<char>)
    requires
        forall|i: int| 0 <= i < local_ip.len() ==> #[trigger] local_ip[i] != ':',
    ensures
        endpoint_of(endpoint(local_ip, RECEIVER_PORT)) == Ok::<(Seq<char>, u16), RegistrationError>((local_ip, RECEIVER_PORT)),
{
    lemma_endpoint_roundtrip(local_ip, RECEIVER_PORT);
}

} // verus!
