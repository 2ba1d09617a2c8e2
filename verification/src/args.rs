//! Validation of configuration inputs: port numbers and IP addresses.
//!
//! The port parser is its own decimal reader with an exact specification:
//! it accepts a non-empty string of ASCII digits whose value fits a port,
//! and nothing else. The IP check calls an outside matcher and is exact up
//! to that matcher's verdict.

use vstd::prelude::*;

use crate::config::TauConfigError;

verus! {

/// An ASCII decimal digit.
pub open spec fn is_digit_char(c: char) -> bool {
    48 <= c as int <= 57
}

/// Every character of the string is a decimal digit.
pub open spec fn all_digits(s: Seq<char>) -> bool {
    forall|i: int| 0 <= i < s.len() ==> is_digit_char(s[i])
}

/// The value of a digit string read as a base-ten number.
pub open spec fn digits_value(s: Seq<char>) -> int
    decreases s.len(),
{
    if s.len() == 0 {
        0
    } else {
        digits_value(s.drop_last()) * 10 + (s.last() as int - 48)
    }
}

/// What parsing a port string yields: the base-ten value of a non-empty,
/// all-digit string that fits in sixteen bits; nothing otherwise.
pub open spec fn parse_u16_spec(s: Seq<char>) -> Option<u16> {
    if s.len() > 0 && all_digits(s) && digits_value(s) <= 65535 {
        Some(digits_value(s) as u16)
    } else {
        None
    }
}

proof fn lemma_digits_value_nonneg(s: Seq<char>)
    requires
        all_digits(s),
    ensures
        digits_value(s) >= 0,
    decreases s.len(),
{
    if s.len() > 0 {
        assert(all_digits(s.drop_last())) by {
            assert(forall|i: int|
                0 <= i < s.len() - 1 ==> s.drop_last()[i] == s[i] && is_digit_char(s[i]));
        }
        lemma_digits_value_nonneg(s.drop_last());
    }
}

/// A digit string is worth at least any of its prefixes: appending digits
/// never shrinks the value.
proof fn lemma_digits_value_prefix_le(s: Seq<char>, i: int)
    requires
        all_digits(s),
        0 <= i <= s.len(),
    ensures
        digits_value(s.subrange(0, i)) <= digits_value(s),
    decreases s.len() - i,
{
    if i == s.len() {
        assert(s.subrange(0, i) =~= s);
    } else {
        let shorter = s.subrange(0, i);
        let longer = s.subrange(0, i + 1);
        assert(longer.drop_last() =~= shorter);
        assert(longer.last() == s[i]);
        assert(all_digits(shorter)) by {
            assert(forall|j: int| 0 <= j < i ==> shorter[j] == s[j] && is_digit_char(s[j]));
        }
        lemma_digits_value_nonneg(shorter);
        assert(digits_value(longer) == digits_value(shorter) * 10 + (s[i] as int - 48));
        assert(digits_value(shorter) <= digits_value(longer));
        lemma_digits_value_prefix_le(s, i + 1);
    }
}

/// Read a port number: exactly the base-ten value of a non-empty digit
/// string that fits in sixteen bits; anything else is an input error.
pub fn parse_port(p: &str) -> (r: Result<u16, TauConfigError>)
    ensures
        r matches Ok(v) ==> parse_u16_spec(p@) == Some(v),
        r matches Err(e) ==> parse_u16_spec(p@) is None && e is Input,
{
    let n = p.unicode_len();
    if n == 0 {
        return Err(TauConfigError::Input("not a number: empty string".to_owned()));
    }
    let mut i: usize = 0;
    let mut value: u32 = 0;
    while i < n
        invariant
            n == p@.len(),
            0 < n,
            i <= n,
            all_digits(p@.subrange(0, i as int)),
            value == digits_value(p@.subrange(0, i as int)),
            value <= 65535,
        decreases n - i,
    {
        let c = p.get_char(i);
        let cv = c as u32;
        if cv < 48 || cv > 57 {
            proof {
                assert(!is_digit_char(p@[i as int]));
            }
            return Err(TauConfigError::Input("not a number: unexpected character".to_owned()));
        }
        let next = value * 10 + (cv - 48);
        proof {
            let prefix = p@.subrange(0, i as int);
            let extended = p@.subrange(0, i as int + 1);
            assert(extended.drop_last() =~= prefix);
            assert(extended.last() == p@[i as int]);
            assert(digits_value(extended) == digits_value(prefix) * 10 + (p@[i as int] as int
                - 48));
            assert(forall|j: int|
                0 <= j < extended.len() ==> extended[j] == p@[j] && is_digit_char(extended[j])
                    == is_digit_char(p@[j]));
        }
        if next > 65535 {
            proof {
                if all_digits(p@) {
                    lemma_digits_value_prefix_le(p@, i as int + 1);
                }
            }
            return Err(TauConfigError::Input("not a number: value out of range".to_owned()));
        }
        value = next;
        i = i + 1;
    }
    proof {
        assert(p@.subrange(0, n as int) =~= p@);
    }
    Ok(value as u16)
}

/// Accept any non-zero port; port zero cannot be listened on or announced.
pub fn validate_port(port: u16) -> (r: Result<u16, TauConfigError>)
    ensures
        port >= 1 ==> r == Ok::<u16, TauConfigError>(port),
        port == 0 ==> r == Err::<u16, TauConfigError>(TauConfigError::InvalidPort(port)),
{
    if port < 1 {
        return Err(TauConfigError::InvalidPort(port));
    }
    Ok(port)
}

/// Whether the string is an IPv4 or IPv6 address, as the outside matcher
/// decides it; a function of the characters alone.
pub uninterp spec fn is_ip_str(s: Seq<char>) -> bool;

/// Relies on is_ip::is_ip: a pure regular-expression match deciding whether
/// the string is an IPv4 or IPv6 address.
#[verifier::external_body]
fn ip_matches(s: &str) -> (r: bool)
    ensures
        r == is_ip_str(s@),
{
    is_ip::is_ip(s)
}

/// Accept a string exactly when the outside matcher recognises it as an IP
/// address, handing it back; otherwise report it as invalid.
pub fn validate_ip(ip: String) -> (r: Result<String, TauConfigError>)
    ensures
        is_ip_str(ip@) ==> (r matches Ok(s) && s@ == ip@),
        !is_ip_str(ip@) ==> (r matches Err(e) && e matches TauConfigError::InvalidIp(s) && s@
            == ip@),
{
    if ip_matches(ip.as_str()) {
        Ok(ip)
    } else {
        Err(TauConfigError::InvalidIp(ip))
    }
}

} // verus!
