//! On-chain contract addresses: a 20-byte identity, written on the wire as
//! a `0x`-prefixed string of 40 hexadecimal digits.

use vstd::prelude::*;
use vstd::string::StrSliceExecFns;

verus! {

/// A 20-byte on-chain contract address.
#[derive(Debug, PartialEq)]
pub struct Address {
    pub bytes: Vec<u8>,
}

impl Address {
    /// A value is well formed when it holds exactly 20 bytes.
    pub open spec fn wf(&self) -> bool {
        self.bytes@.len() == 20
    }
}

impl View for Address {
    type V = Seq<u8>;

    open spec fn view(&self) -> Seq<u8> {
        self.bytes@
    }
}

impl DeepView for Address {
    type V = Seq<u8>;

    open spec fn deep_view(&self) -> Seq<u8> {
        self.bytes@
    }
}

/// The value of one hexadecimal digit, upper or lower case, `None` for any
/// other character.
pub open spec fn spec_hex_digit(c: char) -> Option<u8> {
    let u = c as u32;
    if 48 <= u && u <= 57 {
        Some((u - 48) as u8)
    } else if 97 <= u && u <= 102 {
        Some((u - 87) as u8)
    } else if 65 <= u && u <= 70 {
        Some((u - 55) as u8)
    } else {
        None
    }
}

/// The bytes of an address string: `0x`, then 40 hexadecimal digits, two
/// per byte, most significant first. `None` for any other string.
pub open spec fn spec_parse_address(s: Seq<char>) -> Option<Seq<u8>> {
    if s.len() == 42 && s[0] == '0' && s[1] == 'x' && (forall|i: int|
        2 <= i < 42 ==> spec_hex_digit(#[trigger] s[i]) is Some) {
        Some(
            Seq::new(
                20,
                |i: int| (spec_hex_digit(s[2 + 2 * i]).unwrap() * 16 + spec_hex_digit(
                    s[2 + 2 * i + 1],
                ).unwrap()) as u8,
            ),
        )
    } else {
        None
    }
}

fn hex_digit(c: char) -> (r: Option<u8>)
    ensures
        r == spec_hex_digit(c),
{
    let u = c as u32;
    if 48 <= u && u <= 57 {
        Some((u - 48) as u8)
    } else if 97 <= u && u <= 102 {
        Some((u - 87) as u8)
    } else if 65 <= u && u <= 70 {
        Some((u - 55) as u8)
    } else {
        None
    }
}

impl Address {
    /// Parses a `0x`-prefixed, 40-digit hexadecimal address string.
    /// Returns the address exactly when `spec_parse_address` accepts the
    /// string, and `None` on any other input.
    pub fn parse(s: &str) -> (r: Option<Address>)
        ensures
            match r {
                Some(a) => a.wf() && spec_parse_address(s@) == Some(a@),
                None => spec_parse_address(s@) is None,
            },
    {
        let n = s.unicode_len();
        if n != 42 {
            return None;
        }
        if s.get_char(0) != '0' || s.get_char(1) != 'x' {
            return None;
        }
        let mut bytes: Vec<u8> = Vec::new();
        let mut i: usize = 0;
        while i < 20
            invariant
                s@.len() == 42,
                s@[0] == '0',
                s@[1] == 'x',
                0 <= i <= 20,
                bytes@.len() == i,
                forall|j: int| 0 <= j < 2 * i + 2 ==> j >= 2 ==> spec_hex_digit(#[trigger] s@[j]) is Some,
                forall|j: int|
                    0 <= j < i ==> bytes@[j] == (spec_hex_digit(s@[2 + 2 * j]).unwrap() * 16
                        + spec_hex_digit(s@[2 + 2 * j + 1]).unwrap()) as u8,
            decreases 20 - i,
        {
            let hi = match hex_digit(s.get_char(2 + 2 * i)) {
                Some(d) => d,
                None => {
                    return None;
                },
            };
            let lo = match hex_digit(s.get_char(2 + 2 * i + 1)) {
                Some(d) => d,
                None => {
                    return None;
                },
            };
            assert(hi < 16 && lo < 16);
            bytes.push(hi * 16 + lo);
            i = i + 1;
        }
        let a = Address { bytes };
        assert(spec_parse_address(s@) == Some(a@)) by {
            assert(spec_parse_address(s@) is Some);
            assert(a@ =~= spec_parse_address(s@).unwrap());
        }
        Some(a)
    }
}

} // verus!
