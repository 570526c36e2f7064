//! Parsing of modalias strings.
//!
//! A modalias string has the shape `source:vXXXXpXXXXdXXXX`, where `source`
//! names the bus (for instance `usb`) and each group of four `X` characters
//! holds a hexadecimal number: the vendor id, the product id and the device
//! id.  The mock backend stores the raw string and parses it on demand; the
//! segment between the first and the second colon is read positionally, so
//! characters outside the three hexadecimal groups are not inspected.
//!
//! The parser accepts ASCII strings only; a string that does not have the
//! shape above is rejected with the modalias error rather than accepted in
//! part.

use vstd::prelude::*;
use crate::errors::BluetoothError;
use vstd::string::StringSliceAdditionalSpecFns;

verus! {

broadcast use vstd::utf8::group_utf8_lib;

/// Whether the codepoint is an ASCII hexadecimal digit
/// (`0`-`9`, `A`-`F` or `a`-`f`).
pub open spec fn is_hex_digit_code(x: int) -> bool {
    (48 <= x && x <= 57) || (65 <= x && x <= 70) || (97 <= x && x <= 102)
}

/// The numerical value of the hexadecimal digit with the given codepoint.
pub open spec fn hex_value_code(x: int) -> int {
    if 48 <= x && x <= 57 {
        x - 48
    } else if 65 <= x && x <= 70 {
        x - 55
    } else {
        x - 87
    }
}

/// Whether the character is a hexadecimal digit.
pub open spec fn is_hex_digit(c: char) -> bool {
    is_hex_digit_code(c as u32 as int)
}

/// The numerical value of a hexadecimal digit character.
pub open spec fn hex_value(c: char) -> int {
    hex_value_code(c as u32 as int)
}

/// The value of four hexadecimal digit characters read most significant
/// first, exactly as two big-endian bytes would be decoded.
pub open spec fn hex4_value(s: Seq<char>) -> int {
    hex_value(s[0]) * 4096 + hex_value(s[1]) * 256 + hex_value(s[2]) * 16 + hex_value(s[3])
}

/// The position of the first colon at or after `from`, or the length of the
/// sequence when no colon follows.
pub open spec fn find_colon(s: Seq<char>, from: int) -> int
    decreases s.len() - from,
    when 0 <= from <= s.len()
{
    if from >= s.len() {
        s.len() as int
    } else if s[from] == ':' {
        from
    } else {
        find_colon(s, from + 1)
    }
}

/// The part of the modalias before the first colon: the bus that the
/// identifiers come from.
pub open spec fn modalias_source(s: Seq<char>) -> Seq<char> {
    s.subrange(0, find_colon(s, 0))
}

/// The part of the modalias between the first colon and the second colon or
/// the end: the segment holding the three hexadecimal identifier groups.
pub open spec fn modalias_segment(s: Seq<char>) -> Seq<char> {
    let c1 = find_colon(s, 0);
    if c1 < s.len() {
        s.subrange(c1 + 1, find_colon(s, c1 + 1))
    } else {
        Seq::<char>::empty()
    }
}

/// Whether the string is an ASCII modalias whose identifier segment is long
/// enough and carries hexadecimal digits at the three groups' positions.
pub open spec fn modalias_well_formed(s: Seq<char>) -> bool {
    let seg = modalias_segment(s);
    &&& vstd::utf8::is_ascii_chars(s)
    &&& find_colon(s, 0) < s.len()
    &&& seg.len() >= 15
    &&& is_hex_digit(seg[1])
    &&& is_hex_digit(seg[2])
    &&& is_hex_digit(seg[3])
    &&& is_hex_digit(seg[4])
    &&& is_hex_digit(seg[6])
    &&& is_hex_digit(seg[7])
    &&& is_hex_digit(seg[8])
    &&& is_hex_digit(seg[9])
    &&& is_hex_digit(seg[11])
    &&& is_hex_digit(seg[12])
    &&& is_hex_digit(seg[13])
    &&& is_hex_digit(seg[14])
}

/// The vendor id of a well-formed modalias.
pub open spec fn modalias_vendor(s: Seq<char>) -> int {
    hex4_value(modalias_segment(s).subrange(1, 5))
}

/// The product id of a well-formed modalias.
pub open spec fn modalias_product(s: Seq<char>) -> int {
    hex4_value(modalias_segment(s).subrange(6, 10))
}

/// The device id of a well-formed modalias.
pub open spec fn modalias_device(s: Seq<char>) -> int {
    hex4_value(modalias_segment(s).subrange(11, 15))
}

/// The numerical value of one hexadecimal digit byte, or nothing when the
/// byte is no hexadecimal digit.
fn hex_value_of_byte(b: u8) -> (r: Option<u32>)
    ensures
        r is Some <==> is_hex_digit_code(b as int),
        r matches Some(v) ==> v as int == hex_value_code(b as int) && v < 16,
{
    if 48 <= b && b <= 57 {
        Some((b - 48) as u32)
    } else if 65 <= b && b <= 70 {
        Some((b - 55) as u32)
    } else if 97 <= b && b <= 102 {
        Some((b - 87) as u32)
    } else {
        None
    }
}

/// The position of the first colon byte at or after `from`, which for an
/// ASCII string is the position of the first colon character.
fn find_colon_from(s: &str, from: usize) -> (r: usize)
    requires
        vstd::utf8::is_ascii_chars(s@),
        from <= s@.len(),
    ensures
        r as int == find_colon(s@, from as int),
        from <= r <= s@.len(),
{
    proof {
        vstd::utf8::is_ascii_chars_encode_utf8(s@);
    }
    let bytes = s.as_bytes();
    let n = bytes.len();
    let mut i: usize = from;
    while i < n
        invariant
            from <= i <= n,
            n == s@.len(),
            bytes@ == s.spec_bytes(),
            vstd::utf8::is_ascii_chars(s@),
            find_colon(s@, from as int) == find_colon(s@, i as int),
        decreases n - i,
    {
        proof {
            vstd::utf8::is_ascii_chars_encode_utf8(s@);
        }
        if bytes[i] == 58 {
            proof {
                assert(s@[i as int] as u8 == 58);
                assert((s@[i as int] as u32) < 128);
                assert(s@[i as int] as u32 == 58);
                assert(':' as u32 == 58);
                vstd::utf8::char_u32_cast(s@[i as int], 58);
                vstd::utf8::char_u32_cast(':', 58);
                assert(s@[i as int] == ':');
            }
            return i;
        }
        proof {
            assert(s@[i as int] as u8 != 58);
            assert(':' as u32 == 58);
            assert(s@[i as int] != ':');
        }
        i += 1;
    }
    i
}

/// Splits a modalias string into its bus name and its vendor, product and
/// device ids, or reports the modalias error when the string does not have
/// the `source:vXXXXpXXXXdXXXX` shape.
pub fn parse_modalias(s: &String) -> (r: Result<(String, u32, u32, u32), BluetoothError>)
    ensures
        modalias_well_formed(s@) ==> (r matches Ok(t)
            && t.0@ == modalias_source(s@)
            && t.1 as int == modalias_vendor(s@)
            && t.2 as int == modalias_product(s@)
            && t.3 as int == modalias_device(s@)),
        !modalias_well_formed(s@) ==> r == Err::<(String, u32, u32, u32), BluetoothError>(
            BluetoothError::InvalidModalias,
        ),
{
    let st = s.as_str();
    if !st.is_ascii() {
        return Err(BluetoothError::InvalidModalias);
    }
    proof {
        vstd::utf8::is_ascii_chars_encode_utf8(st@);
    }
    let bytes = st.as_bytes();
    let n = bytes.len();
    let c1 = find_colon_from(st, 0);
    if c1 == n {
        return Err(BluetoothError::InvalidModalias);
    }
    let c2 = find_colon_from(st, c1 + 1);
    let ghost seg = modalias_segment(st@);
    proof {
        assert(seg == st@.subrange(c1 + 1, c2 as int));
        assert(seg.len() == c2 - c1 - 1);
    }
    if c2 - c1 - 1 < 15 {
        return Err(BluetoothError::InvalidModalias);
    }
    let base = c1 + 1;
    let ghost ascii_digit = |k: int| {
        seg[k] as u32 == bytes@[base + k] as u32 && (is_hex_digit(seg[k]) <==> is_hex_digit_code(
            bytes@[base + k] as int,
        )) && hex_value(seg[k]) == hex_value_code(bytes@[base + k] as int)
    };
    proof {
        assert forall|k: int| 0 <= k < 15 implies #[trigger] ascii_digit(k) by {
            assert(seg[k] == st@[base + k]);
            assert(st@[base + k] as u8 == bytes@[base + k]);
            assert((st@[base + k] as u32) < 128);
        }
    }
    let v1 = match hex4_from_bytes(bytes, base + 1) {
        Some(v) => v,
        None => {
            proof {
                assert(ascii_digit(1) && ascii_digit(2) && ascii_digit(3) && ascii_digit(4));
            }
            return Err(BluetoothError::InvalidModalias);
        },
    };
    let v2 = match hex4_from_bytes(bytes, base + 6) {
        Some(v) => v,
        None => {
            proof {
                assert(ascii_digit(6) && ascii_digit(7) && ascii_digit(8) && ascii_digit(9));
            }
            return Err(BluetoothError::InvalidModalias);
        },
    };
    let v3 = match hex4_from_bytes(bytes, base + 11) {
        Some(v) => v,
        None => {
            proof {
                assert(ascii_digit(11) && ascii_digit(12) && ascii_digit(13) && ascii_digit(14));
            }
            return Err(BluetoothError::InvalidModalias);
        },
    };
    proof {
        assert(ascii_digit(1) && ascii_digit(2) && ascii_digit(3) && ascii_digit(4));
        assert(ascii_digit(6) && ascii_digit(7) && ascii_digit(8) && ascii_digit(9));
        assert(ascii_digit(11) && ascii_digit(12) && ascii_digit(13) && ascii_digit(14));
        assert(modalias_well_formed(st@));
        assert(seg.subrange(1, 5)[0] == seg[1]);
        assert(seg.subrange(1, 5)[1] == seg[2]);
        assert(seg.subrange(1, 5)[2] == seg[3]);
        assert(seg.subrange(1, 5)[3] == seg[4]);
        assert(seg.subrange(6, 10)[0] == seg[6]);
        assert(seg.subrange(6, 10)[1] == seg[7]);
        assert(seg.subrange(6, 10)[2] == seg[8]);
        assert(seg.subrange(6, 10)[3] == seg[9]);
        assert(seg.subrange(11, 15)[0] == seg[11]);
        assert(seg.subrange(11, 15)[1] == seg[12]);
        assert(seg.subrange(11, 15)[2] == seg[13]);
        assert(seg.subrange(11, 15)[3] == seg[14]);
    }
    proof {
        vstd::utf8::is_char_boundary_iff_not_is_continuation_byte(st.spec_bytes(), c1 as int);
    }
    let (source_str, _rest) = st.split_at(c1);
    proof {
        let pre_chars = st@.subrange(0, c1 as int);
        assert(vstd::utf8::is_ascii_chars(pre_chars));
        vstd::utf8::is_ascii_chars_encode_utf8(pre_chars);
        assert(vstd::utf8::encode_utf8(pre_chars) =~= st.spec_bytes().subrange(0, c1 as int));
        assert(vstd::utf8::encode_utf8(source_str@) == source_str.spec_bytes());
        vstd::utf8::encode_utf8_decode_utf8(source_str@);
        vstd::utf8::encode_utf8_decode_utf8(pre_chars);
        assert(source_str@ == pre_chars);
    }
    let source = source_str.to_owned();
    Ok((source, v1, v2, v3))
}

/// The value of the four hexadecimal digit bytes starting at `at`, or
/// nothing when one of them is no hexadecimal digit.
fn hex4_from_bytes(bytes: &[u8], at: usize) -> (r: Option<u32>)
    requires
        at + 4 <= bytes@.len(),
    ensures
        r is Some <==> (is_hex_digit_code(bytes@[at as int] as int) && is_hex_digit_code(
            bytes@[at + 1] as int,
        ) && is_hex_digit_code(bytes@[at + 2] as int) && is_hex_digit_code(
            bytes@[at + 3] as int,
        )),
        r matches Some(v) ==> v as int == hex_value_code(bytes@[at as int] as int) * 4096
            + hex_value_code(bytes@[at + 1] as int) * 256 + hex_value_code(
            bytes@[at + 2] as int,
        ) * 16 + hex_value_code(bytes@[at + 3] as int),
{
    let h0 = match hex_value_of_byte(bytes[at]) {
        Some(v) => v,
        None => {
            return None;
        },
    };
    let h1 = match hex_value_of_byte(bytes[at + 1]) {
        Some(v) => v,
        None => {
            return None;
        },
    };
    let h2 = match hex_value_of_byte(bytes[at + 2]) {
        Some(v) => v,
        None => {
            return None;
        },
    };
    let h3 = match hex_value_of_byte(bytes[at + 3]) {
        Some(v) => v,
        None => {
            return None;
        },
    };
    Some(h0 * 4096 + h1 * 256 + h2 * 16 + h3)
}

} // verus!
