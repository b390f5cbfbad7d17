//! Text codec for 6-byte radio addresses.
//!
//! An address renders as a 17-byte lowercase colon-hex string
//! `"xx:xx:xx:xx:xx:xx"`, except the all-`0xFF` broadcast address, which
//! renders as the reserved token `"<BROADCAST>"`. Parsing accepts exactly
//! those two shapes (hex digits case-insensitive) and rejects everything
//! else.
use vstd::prelude::*;
use vstd::string::StringExecFns;
use vstd::string::StringSliceAdditionalSpecFns;
use vstd::utf8::encode_utf8;
use vstd::utf8::is_ascii_chars;
use vstd::utf8::is_ascii_chars_encode_utf8;

use crate::text::lemma_encode_utf8_concat;

verus! {

/// The UTF-8 bytes of the reserved broadcast token `"<BROADCAST>"`.
pub open spec fn spec_broadcast_text() -> Seq<u8> {
    seq![60u8, 66u8, 82u8, 79u8, 65u8, 68u8, 67u8, 65u8, 83u8, 84u8, 62u8]
}

/// True when `a` is the 6-byte all-`0xFF` broadcast address.
pub open spec fn spec_is_broadcast(a: Seq<u8>) -> bool {
    a.len() == 6 && forall|i: int| 0 <= i < 6 ==> a[i] == 0xffu8
}

/// Lowercase hex digit (as an ASCII byte) for a value below 16.
pub open spec fn spec_hex_lower(d: u8) -> u8
    recommends
        d < 16,
{
    if d < 10 {
        (48 + d) as u8
    } else {
        (97 + (d - 10)) as u8
    }
}

/// Two lowercase hex digits for one address byte.
pub open spec fn spec_mac_group(b: u8) -> Seq<u8> {
    seq![spec_hex_lower(b / 16), spec_hex_lower(b % 16)]
}

/// The canonical text form of a 6-byte address, as UTF-8 bytes: the
/// broadcast token for the all-`0xFF` address, colon-hex otherwise.
pub open spec fn spec_format_mac(a: Seq<u8>) -> Seq<u8>
    recommends
        a.len() == 6,
{
    if spec_is_broadcast(a) {
        spec_broadcast_text()
    } else {
        spec_mac_group(a[0]) + seq![58u8] + spec_mac_group(a[1]) + seq![58u8] + spec_mac_group(
            a[2],
        ) + seq![58u8] + spec_mac_group(a[3]) + seq![58u8] + spec_mac_group(a[4]) + seq![58u8]
            + spec_mac_group(a[5])
    }
}

/// Value of one hex digit byte, case-insensitive; `None` for a non-digit.
pub open spec fn spec_hex_val(c: u8) -> Option<u8> {
    if 48 <= c <= 57 {
        Some((c - 48) as u8)
    } else if 97 <= c <= 102 {
        Some((c - 97 + 10) as u8)
    } else if 65u8 <= c <= 70 {
        Some((c - 65u8 + 10) as u8)
    } else {
        None
    }
}

/// True when `s` has the exact colon-hex shape: 17 bytes, colons at
/// positions 2, 5, 8, 11 and 14, and hex digits everywhere else.
pub open spec fn spec_mac_shape(s: Seq<u8>) -> bool {
    &&& s.len() == 17
    &&& forall|k: int| 0 <= k < 5 ==> #[trigger] s[3 * k + 2] == 58u8
    &&& forall|k: int| 0 <= k < 6 ==> #[trigger] spec_hex_val(s[3 * k]) is Some
    &&& forall|k: int| 0 <= k < 6 ==> #[trigger] spec_hex_val(s[3 * k + 1]) is Some
}

/// Value of the `k`-th two-digit group of a colon-hex address string.
pub open spec fn spec_group_val(s: Seq<u8>, k: int) -> u8
    recommends
        spec_mac_shape(s),
        0 <= k < 6,
{
    (spec_hex_val(s[3 * k]).unwrap() * 16 + spec_hex_val(s[3 * k + 1]).unwrap()) as u8
}

/// The address encoded by the text `s` (as UTF-8 bytes), or `None` when
/// `s` is neither the broadcast token nor a well-formed colon-hex string.
pub open spec fn spec_parse_mac(s: Seq<u8>) -> Option<Seq<u8>> {
    if s == spec_broadcast_text() {
        Some(seq![0xffu8, 0xffu8, 0xffu8, 0xffu8, 0xffu8, 0xffu8])
    } else if spec_mac_shape(s) {
        Some(
            seq![
                spec_group_val(s, 0),
                spec_group_val(s, 1),
                spec_group_val(s, 2),
                spec_group_val(s, 3),
                spec_group_val(s, 4),
                spec_group_val(s, 5),
            ],
        )
    } else {
        None
    }
}

/// Value of one hex digit byte, case-insensitive.
pub fn hex_digit_to_u8(b: u8) -> (r: Result<u8, ()>)
    ensures
        match spec_hex_val(b) {
            Some(v) => r == Ok::<u8, ()>(v),
            None => r is Err,
        },
{
    if 48 <= b && b <= 57 {
        Ok(b - 48)
    } else if 97 <= b && b <= 102 {
        Ok(b - 97 + 10)
    } else if 65u8 <= b && b <= 70 {
        Ok(b - 65u8 + 10)
    } else {
        Err(())
    }
}

/// Value of a two-hex-digit string such as `"9a"`.
pub fn parse_hex_byte(s: &str) -> (r: Result<u8, ()>)
    ensures
        match r {
            Ok(v) => {
                &&& s.spec_bytes().len() == 2
                &&& spec_hex_val(s.spec_bytes()[0]) is Some
                &&& spec_hex_val(s.spec_bytes()[1]) is Some
                &&& v == spec_hex_val(s.spec_bytes()[0]).unwrap() * 16 + spec_hex_val(
                    s.spec_bytes()[1],
                ).unwrap()
            },
            Err(()) => {
                s.spec_bytes().len() != 2 || spec_hex_val(s.spec_bytes()[0]) is None
                    || spec_hex_val(s.spec_bytes()[1]) is None
            },
        },
{
    let bytes = s.as_bytes();
    if bytes.len() != 2 {
        return Err(());
    }
    let high = hex_digit_to_u8(bytes[0])?;
    let low = hex_digit_to_u8(bytes[1])?;
    Ok(high * 16 + low)
}

/// Single-character string for a lowercase hex digit.
pub(crate) fn hex_digit_str(d: u8) -> (r: &'static str)
    requires
        d < 16,
    ensures
        r.spec_bytes() == seq![spec_hex_lower(d)],
        r@.len() == 1,
{
    let r: &'static str = match d {
        0 => "0",
        1 => "1",
        2 => "2",
        3 => "3",
        4 => "4",
        5 => "5",
        6 => "6",
        7 => "7",
        8 => "8",
        9 => "9",
        10 => "a",
        11 => "b",
        12 => "c",
        13 => "d",
        14 => "e",
        _ => "f",
    };
    proof {
        reveal_strlit("0");
        reveal_strlit("1");
        reveal_strlit("2");
        reveal_strlit("3");
        reveal_strlit("4");
        reveal_strlit("5");
        reveal_strlit("6");
        reveal_strlit("7");
        reveal_strlit("8");
        reveal_strlit("9");
        reveal_strlit("a");
        reveal_strlit("b");
        reveal_strlit("c");
        reveal_strlit("d");
        reveal_strlit("e");
        reveal_strlit("f");
        assert(is_ascii_chars(r@));
        is_ascii_chars_encode_utf8(r@);
        assert(r.spec_bytes() =~= seq![spec_hex_lower(d)]);
    }
    r
}

/// Appends the two lowercase hex digits of `b` to `out`.
pub(crate) fn push_hex_group(out: &mut String, b: u8)
    ensures
        encode_utf8(final (out)@) == encode_utf8(old(out)@) + spec_mac_group(b),
{
    let hi = hex_digit_str(b / 16);
    let lo = hex_digit_str(b % 16);
    out.append(hi);
    out.append(lo);
    proof {
        lemma_encode_utf8_concat(old(out)@ + hi@, lo@);
        lemma_encode_utf8_concat(old(out)@, hi@);
        assert(encode_utf8(final (out)@) =~= encode_utf8(old(out)@) + spec_mac_group(b));
    }
}

/// Canonical text form of a 6-byte address: the `"<BROADCAST>"` token for
/// the all-`0xFF` address, lowercase colon-hex otherwise.
pub fn format_mac(mac: &[u8; 6]) -> (r: String)
    ensures
        encode_utf8(r@) == spec_format_mac(mac@),
{
    let is_bcast = mac[0] == 0xff && mac[1] == 0xff && mac[2] == 0xff && mac[3] == 0xff && mac[4]
        == 0xff && mac[5] == 0xff;
    if is_bcast {
        proof {
            assert(spec_is_broadcast(mac@));
            reveal_strlit("<BROADCAST>");
            assert(is_ascii_chars("<BROADCAST>"@));
            is_ascii_chars_encode_utf8("<BROADCAST>"@);
            assert("<BROADCAST>".spec_bytes() =~= spec_broadcast_text());
        }
        String::from_str("<BROADCAST>")
    } else {
        proof {
            assert(!spec_is_broadcast(mac@)) by {
                assert(mac@.len() == 6);
                if spec_is_broadcast(mac@) {
                    assert(mac@[0] == 0xffu8 && mac@[1] == 0xffu8 && mac@[2] == 0xffu8 && mac@[3]
                        == 0xffu8 && mac@[4] == 0xffu8 && mac@[5] == 0xffu8);
                }
            }
        }
        let mut out = String::new();
        push_hex_group(&mut out, mac[0]);
        push_colon(&mut out);
        push_hex_group(&mut out, mac[1]);
        push_colon(&mut out);
        push_hex_group(&mut out, mac[2]);
        push_colon(&mut out);
        push_hex_group(&mut out, mac[3]);
        push_colon(&mut out);
        push_hex_group(&mut out, mac[4]);
        push_colon(&mut out);
        push_hex_group(&mut out, mac[5]);
        proof {
            assert(encode_utf8(out@) =~= spec_format_mac(mac@));
        }
        out
    }
}

/// Appends a single `':'` separator to `out`.
fn push_colon(out: &mut String)
    ensures
        encode_utf8(final (out)@) == encode_utf8(old(out)@) + seq![58u8],
{
    proof {
        reveal_strlit(":");
        assert(is_ascii_chars(":"@));
        is_ascii_chars_encode_utf8(":"@);
        assert(":".spec_bytes() =~= seq![58u8]);
    }
    out.append(":");
    proof {
        lemma_encode_utf8_concat(old(out)@, ":"@);
    }
}

/// True when `b` holds exactly the broadcast token bytes.
fn is_broadcast_text(b: &[u8]) -> (r: bool)
    ensures
        r == (b@ == spec_broadcast_text()),
{
    let r = b.len() == 11 && b[0] == 60u8 && b[1] == 66u8 && b[2] == 82u8 && b[3] == 79u8 && b[4]
        == 65u8 && b[5] == 68u8 && b[6] == 67u8 && b[7] == 65u8 && b[8] == 83u8 && b[9] == 84u8
        && b[10] == 62u8;
    proof {
        if r {
            assert(b@ =~= spec_broadcast_text());
        }
    }
    r
}

/// Parses an address from its text form: accepts exactly the broadcast
/// token (mapping to all-`0xFF`) or a 6-group colon-hex string, and fails
/// on every other shape.
pub fn from_mac(s: &str) -> (r: Result<[u8; 6], ()>)
    ensures
        match spec_parse_mac(s.spec_bytes()) {
            Some(a) => r matches Ok(m) && m@ == a,
            None => r is Err,
        },
{
    let b = s.as_bytes();
    if is_broadcast_text(b) {
        let m = [0xffu8, 0xff, 0xff, 0xff, 0xff, 0xff];
        proof {
            assert(m@ =~= spec_parse_mac(s.spec_bytes()).unwrap());
        }
        return Ok(m);
    }
    if b.len() != 17 {
        return Err(());
    }
    if !(b[2] == 58u8 && b[5] == 58u8 && b[8] == 58u8 && b[11] == 58u8 && b[14] == 58u8) {
        proof {
            assert(!spec_mac_shape(b@)) by {
                if spec_mac_shape(b@) {
                    assert(b@[3 * 0int + 2] == 58u8);
                    assert(b@[3 * 1int + 2] == 58u8);
                    assert(b@[3 * 2int + 2] == 58u8);
                    assert(b@[3 * 3int + 2] == 58u8);
                    assert(b@[3 * 4int + 2] == 58u8);
                }
            }
        }
        return Err(());
    }
    let g0 = parse_group(b, 0)?;
    let g1 = parse_group(b, 1)?;
    let g2 = parse_group(b, 2)?;
    let g3 = parse_group(b, 3)?;
    let g4 = parse_group(b, 4)?;
    let g5 = parse_group(b, 5)?;
    let m = [g0, g1, g2, g3, g4, g5];
    proof {
        assert(spec_mac_shape(b@)) by {
            assert(forall|k: int| 0 <= k < 5 ==> #[trigger] b@[3 * k + 2] == 58u8) by {
                assert(b@[2int] == 58u8);
                assert(b@[5int] == 58u8);
                assert(b@[8int] == 58u8);
                assert(b@[11int] == 58u8);
                assert(b@[14int] == 58u8);
            }
            assert(forall|k: int| 0 <= k < 6 ==> #[trigger] spec_hex_val(b@[3 * k]) is Some
                && #[trigger] spec_hex_val(b@[3 * k + 1]) is Some) by {
                assert(spec_hex_val(b@[0int]) is Some && spec_hex_val(b@[1int]) is Some);
                assert(spec_hex_val(b@[3int]) is Some && spec_hex_val(b@[4int]) is Some);
                assert(spec_hex_val(b@[6int]) is Some && spec_hex_val(b@[7int]) is Some);
                assert(spec_hex_val(b@[9int]) is Some && spec_hex_val(b@[10int]) is Some);
                assert(spec_hex_val(b@[12int]) is Some && spec_hex_val(b@[13int]) is Some);
                assert(spec_hex_val(b@[15int]) is Some && spec_hex_val(b@[16int]) is Some);
            }
        }
        assert(m@ =~= spec_parse_mac(s.spec_bytes()).unwrap());
    }
    Ok(m)
}

/// Parses the `k`-th two-digit group of a 17-byte colon-hex string.
fn parse_group(b: &[u8], k: usize) -> (r: Result<u8, ()>)
    requires
        b@.len() == 17,
        k < 6,
    ensures
        match r {
            Ok(v) => {
                &&& spec_hex_val(b@[3 * k as int]) is Some
                &&& spec_hex_val(b@[3 * k as int + 1]) is Some
                &&& v == spec_group_val(b@, k as int)
            },
            Err(()) => {
                spec_hex_val(b@[3 * k as int]) is None || spec_hex_val(
                    b@[3 * k as int + 1],
                ) is None
            },
        },
{
    let hi = hex_digit_to_u8(b[3 * k])?;
    let lo = hex_digit_to_u8(b[3 * k + 1])?;
    Ok(hi * 16 + lo)
}

/// Law: parsing the canonical text of any 6-byte address yields the
/// address back; the all-`0xFF` address formats as the broadcast token,
/// and the token parses back to it.
pub proof fn lemma_mac_round_trip(a: Seq<u8>)
    requires
        a.len() == 6,
    ensures
        spec_parse_mac(spec_format_mac(a)) == Some(a),
        spec_is_broadcast(a) ==> spec_format_mac(a) == spec_broadcast_text(),
        spec_parse_mac(spec_broadcast_text()) == Some(
            seq![0xffu8, 0xffu8, 0xffu8, 0xffu8, 0xffu8, 0xffu8],
        ),
{
    if spec_is_broadcast(a) {
        assert(spec_format_mac(a) == spec_broadcast_text());
        assert(spec_parse_mac(spec_broadcast_text()).unwrap() =~= a);
    } else {
        let s = spec_format_mac(a);
        assert forall|k: int| 0 <= k < 6 implies s[3 * k] == spec_hex_lower(a[k] / 16) && s[3 * k
            + 1] == spec_hex_lower(a[k] % 16) && (0 <= k < 5 ==> s[3 * k + 2] == 58u8) by {
            assert(s[3 * k] == spec_hex_lower(a[k] / 16) && s[3 * k + 1] == spec_hex_lower(
                a[k] % 16,
            ) && (0 <= k < 5 ==> s[3 * k + 2] == 58u8)) by {
                assert(s.len() == 17);
            }
        }
        assert(s.len() == 17);
        assert(s != spec_broadcast_text());
        assert forall|k: int| 0 <= k < 6 implies spec_hex_val(s[3 * k]) == Some(a[k] / 16)
            && spec_hex_val(s[3 * k + 1]) == Some(a[k] % 16) by {
            lemma_hex_val_lower(a[k] / 16);
            lemma_hex_val_lower(a[k] % 16);
        }
        assert(spec_mac_shape(s));
        assert forall|k: int| 0 <= k < 6 implies spec_group_val(s, k) == a[k] by {
            assert(spec_group_val(s, k) == ((a[k] / 16) * 16 + a[k] % 16) as u8);
        }
        assert(spec_parse_mac(s).unwrap() =~= a);
    }
}

/// The lowercase hex digit of a value below 16 parses back to the value.
proof fn lemma_hex_val_lower(d: u8)
    requires
        d < 16,
    ensures
        spec_hex_val(spec_hex_lower(d)) == Some(d),
{
}

} // verus!
