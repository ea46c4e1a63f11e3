//! Addresses and ports as plain numbers, and the rules on which of them a
//! client or a server may use.

use vstd::prelude::*;
use vstd::string::is_ascii_spec_bytes;

verus! {

/// An IP address: the four octets of an IPv4 address or the eight 16-bit
/// groups of an IPv6 address, most significant first.
#[derive(Clone, Copy, Debug, PartialEq, Eq)]
pub enum HostAddress {
    V4([u8; 4]),
    V6([u16; 8]),
}

/// Where to connect or to listen.
#[derive(Clone, Copy, Debug, PartialEq, Eq)]
pub struct Endpoint {
    pub address: HostAddress,
    pub port: u16,
}

impl HostAddress {
    /// The address is all zeros: `0.0.0.0` or `::`.
    pub open spec fn unspecified(self) -> bool {
        match self {
            HostAddress::V4(octets) => forall|i: int| 0 <= i < 4 ==> #[trigger] octets[i] == 0,
            HostAddress::V6(groups) => forall|i: int| 0 <= i < 8 ==> #[trigger] groups[i] == 0,
        }
    }

    /// The address names a group of hosts: `224.0.0.0/4` or `ff00::/8`.
    pub open spec fn multicast(self) -> bool {
        match self {
            HostAddress::V4(octets) => 224 <= octets[0] <= 239,
            HostAddress::V6(groups) => groups[0] >= 0xff00,
        }
    }

    /// The address is an IPv4 address of the host itself: `127.0.0.0/8`.
    pub open spec fn loopback_v4(self) -> bool {
        self matches HostAddress::V4(octets) && octets[0] == 127
    }

    /// Neither a client nor a server may use a multicast or an unspecified
    /// address.
    pub open spec fn usable(self) -> bool {
        !self.multicast() && !self.unspecified()
    }

    #[verifier::when_used_as_spec(unspecified)]
    pub fn is_unspecified(self) -> (r: bool)
        ensures
            r == self.unspecified(),
    {
        match self {
            HostAddress::V4(octets) => {
                octets[0] == 0 && octets[1] == 0 && octets[2] == 0 && octets[3] == 0
            },
            HostAddress::V6(groups) => {
                groups[0] == 0 && groups[1] == 0 && groups[2] == 0 && groups[3] == 0
                    && groups[4] == 0 && groups[5] == 0 && groups[6] == 0 && groups[7] == 0
            },
        }
    }

    #[verifier::when_used_as_spec(multicast)]
    pub fn is_multicast(self) -> (r: bool)
        ensures
            r == self.multicast(),
    {
        match self {
            HostAddress::V4(octets) => 224 <= octets[0] && octets[0] <= 239,
            HostAddress::V6(groups) => groups[0] >= 0xff00,
        }
    }
}

/// `c` is one of the ten decimal digits.
pub open spec fn is_digit(c: char) -> bool {
    '0' <= c <= '9'
}

/// Every character of `text` is a decimal digit.
pub open spec fn all_digits(text: Seq<char>) -> bool {
    forall|i: int| 0 <= i < text.len() ==> is_digit(#[trigger] text[i])
}

/// The number that a run of decimal digits writes, leading zeros allowed.
pub open spec fn decimal_value(digits: Seq<char>) -> int
    decreases digits.len(),
{
    if digits.len() == 0 {
        0
    } else {
        10 * decimal_value(digits.drop_last()) + (digits.last() as int - '0' as int)
    }
}

/// `text` without its leading plus sign, if it has one.
pub open spec fn without_sign(text: Seq<char>) -> Seq<char> {
    if text.len() > 0 && text[0] == '+' {
        text.drop_first()
    } else {
        text
    }
}

/// The port that `text` writes: an optional `+`, then one or more decimal
/// digits and nothing else, with a value of at most 65535.
pub open spec fn port_of(text: Seq<char>) -> Option<u16> {
    let digits = without_sign(text);
    if digits.len() > 0 && all_digits(digits) && decimal_value(digits) <= u16::MAX {
        Some(decimal_value(digits) as u16)
    } else {
        None
    }
}

/// The first `k` digits of a run never write a negative number.
proof fn prefix_value_is_natural(digits: Seq<char>, k: int)
    requires
        all_digits(digits),
        0 <= k <= digits.len(),
    ensures
        0 <= decimal_value(digits.take(k)),
    decreases k,
{
    if k > 0 {
        prefix_value_is_natural(digits, k - 1);
        decimal_value_step(digits, k - 1);
        assert(is_digit(digits[k - 1]));
    }
}

/// A run of digits never writes a smaller number than its first `k` digits.
proof fn decimal_value_grows(digits: Seq<char>, k: int)
    requires
        all_digits(digits),
        0 <= k <= digits.len(),
    ensures
        decimal_value(digits.take(k)) <= decimal_value(digits),
    decreases digits.len() - k,
{
    if k < digits.len() {
        decimal_value_grows(digits, k + 1);
        decimal_value_step(digits, k);
        prefix_value_is_natural(digits, k);
        assert(is_digit(digits[k]));
    } else {
        assert(digits.take(k) =~= digits);
    }
}

/// Reading one more digit multiplies by ten and adds the digit.
proof fn decimal_value_step(digits: Seq<char>, k: int)
    requires
        0 <= k < digits.len(),
    ensures
        decimal_value(digits.take(k + 1)) == 10 * decimal_value(digits.take(k)) + (digits[k] as int
            - '0' as int),
{
    assert(digits.take(k + 1).drop_last() =~= digits.take(k));
    assert(digits.take(k + 1).last() == digits[k]);
}

/// Reads a port number.
///
/// Accepts an optional `+` followed by decimal digits only, as the
/// standard integer parser does: no white space, no other sign, no
/// separators, and at least one digit. Returns `None` for anything else
/// and for a number above 65535.
pub fn parse_port(text: &str) -> (r: Option<u16>)
    ensures
        r == port_of(text@),
{
    let ghost digits = without_sign(text@);
    if !text.is_ascii() {
        proof {
            let i = choose|i: int| 0 <= i < text@.len() && !('\0' <= #[trigger] text@[i] <= '\u{7f}');
            if text@[0] == '+' {
                assert(digits[i - 1] == text@[i]);
                assert(!is_digit(digits[i - 1]));
            } else {
                assert(!is_digit(digits[i]));
            }
        }
        return None;
    }
    let bytes: &[u8] = text.as_bytes();
    proof {
        is_ascii_spec_bytes(text);
    }
    let len: usize = bytes.len();
    let start: usize = if len > 0 && bytes[0] == 0x2b {
        1
    } else {
        0
    };
    assert(digits =~= text@.subrange(start as int, len as int));
    if start == len {
        return None;
    }
    let mut value: u32 = 0;
    let mut i: usize = start;
    while i < len
        invariant
            start <= i <= len,
            len == text@.len(),
            bytes@.len() == len,
            forall|j: int| 0 <= j < len ==> bytes@[j] == text@[j] as u8,
            forall|j: int| 0 <= j < len ==> '\0' <= #[trigger] text@[j] <= '\u{7f}',
            digits == without_sign(text@),
            digits == text@.subrange(start as int, len as int),
            forall|j: int| 0 <= j < i - start ==> is_digit(#[trigger] digits[j]),
            value == decimal_value(digits.take(i - start)),
            value <= u16::MAX,
        decreases len - i,
    {
        let b: u8 = bytes[i];
        assert(digits[i - start] == text@[i as int]);
        if b < 0x30 || b > 0x39 {
            assert(!is_digit(digits[i - start]));
            return None;
        }
        proof {
            decimal_value_step(digits, i - start);
        }
        value = value * 10 + (b - 0x30) as u32;
        if value > 0xffff {
            proof {
                if all_digits(digits) {
                    decimal_value_grows(digits, i - start + 1);
                }
            }
            return None;
        }
        i += 1;
    }
    assert(digits.take(len - start) =~= digits);
    Some(value as u16)
}

} // verus!
