//! Shared facts about UTF-8 byte forms of character sequences, used by the
//! text-producing functions of the crate.
use vstd::prelude::*;
use vstd::string::StringExecFns;
use vstd::string::StringSliceAdditionalSpecFns;
use vstd::utf8::encode_utf8;
use vstd::utf8::encode_scalar;
use vstd::utf8::valid_utf8;

verus! {

/// Relies on `core::str::from_utf8`: it returns `Ok` exactly when the
/// bytes are valid UTF-8, and the resulting string views those same
/// bytes.
#[verifier::external_body]
pub(crate) fn bytes_to_str(v: &[u8]) -> (r: Option<&str>)
    ensures
        r is Some <==> valid_utf8(v@),
        r matches Some(st) ==> st.spec_bytes() == v@,
{
    core::str::from_utf8(v).ok()
}

/// True exactly when the two strings hold the same characters.
pub fn str_eq(a: &str, b: &str) -> (r: bool)
    ensures
        r == (a@ == b@),
{
    let sa = String::from_str(a);
    let sb = String::from_str(b);
    sa.eq(&sb)
}

/// The decimal digit bytes of an unsigned value, most significant first.
pub open spec fn dec_digits(n: nat) -> Seq<u8>
    decreases n,
{
    if n < 10 {
        seq![(48 + n) as u8]
    } else {
        dec_digits(n / 10) + seq![(48 + n % 10) as u8]
    }
}

/// The decimal text of a signed value: a minus sign, then the magnitude.
pub open spec fn i32_text(x: i32) -> Seq<u8> {
    if x >= 0 {
        dec_digits(x as nat)
    } else {
        "-".spec_bytes() + dec_digits((-(x as int)) as nat)
    }
}

/// The text of a `bool`.
pub open spec fn bool_text(b: bool) -> Seq<u8> {
    if b {
        "true".spec_bytes()
    } else {
        "false".spec_bytes()
    }
}

/// The bytes of `a` as a bracketed, comma-separated decimal list.
pub open spec fn byte_array_text(a: Seq<u8>) -> Seq<u8> {
    "[".spec_bytes() + byte_list(a, a.len() as int) + "]".spec_bytes()
}

/// The first `c` bytes of `a` as a comma-separated decimal list.
pub open spec fn byte_list(a: Seq<u8>, c: int) -> Seq<u8>
    decreases c,
{
    if c <= 0 {
        Seq::empty()
    } else if c == 1 {
        dec_digits(a[0] as nat)
    } else {
        byte_list(a, c - 1) + ", ".spec_bytes() + dec_digits(a[c - 1] as nat)
    }
}

/// Appends a string, extending the UTF-8 bytes by the string's bytes.
pub(crate) fn push_str(out: &mut String, s: &str)
    ensures
        encode_utf8(final (out)@) == encode_utf8(old(out)@) + s.spec_bytes(),
{
    out.append(s);
    proof {
        lemma_encode_utf8_concat(old(out)@, s@);
    }
}

/// Appends the decimal digits of `x`.
pub(crate) fn push_dec_u32(out: &mut String, x: u32)
    ensures
        encode_utf8(final (out)@) == encode_utf8(old(out)@) + dec_digits(x as nat),
    decreases x,
{
    if x < 10 {
        let d = crate::format_mac::hex_digit_str(x as u8);
        push_str(out, d);
        proof {
            assert(encode_utf8(final (out)@) =~= encode_utf8(old(out)@) + dec_digits(x as nat));
        }
    } else {
        push_dec_u32(out, x / 10);
        let d = crate::format_mac::hex_digit_str((x % 10) as u8);
        push_str(out, d);
        proof {
            assert(encode_utf8(final (out)@) =~= encode_utf8(old(out)@) + dec_digits(x as nat));
        }
    }
}

/// Appends the decimal text of `x`, sign included.
pub(crate) fn push_dec_i32(out: &mut String, x: i32)
    ensures
        encode_utf8(final (out)@) == encode_utf8(old(out)@) + i32_text(x),
{
    if x >= 0 {
        push_dec_u32(out, x as u32);
    } else {
        push_str(out, "-");
        let mag = (-(x as i64)) as u32;
        push_dec_u32(out, mag);
        proof {
            assert(encode_utf8(final (out)@) =~= encode_utf8(old(out)@) + i32_text(x));
        }
    }
}

/// Appends the text of a `bool`.
pub(crate) fn push_bool(out: &mut String, b: bool)
    ensures
        encode_utf8(final (out)@) == encode_utf8(old(out)@) + bool_text(b),
{
    if b {
        push_str(out, "true");
    } else {
        push_str(out, "false");
    }
}

/// Appends the bytes of `a` as a bracketed decimal list.
pub(crate) fn push_byte_array(out: &mut String, a: &[u8])
    ensures
        encode_utf8(final (out)@) == encode_utf8(old(out)@) + byte_array_text(a@),
{
    push_str(out, "[");
    let ghost base = encode_utf8(old(out)@) + "[".spec_bytes();
    let mut t: usize = 0;
    while t < a.len()
        invariant
            t <= a@.len(),
            encode_utf8(out@) == base + byte_list(a@, t as int),
        decreases a@.len() - t,
    {
        if t > 0 {
            push_str(out, ", ");
        }
        push_dec_u32(out, a[t] as u32);
        t += 1;
        proof {
            assert(encode_utf8(out@) =~= base + byte_list(a@, t as int));
        }
    }
    push_str(out, "]");
    proof {
        assert(encode_utf8(final (out)@) =~= encode_utf8(old(out)@) + byte_array_text(a@));
    }
}

/// The text of an optional value rendered from its inner text:
/// `"None"`, or `"Some("` around the inner text.
pub open spec fn opt_text(o: Option<Seq<u8>>) -> Seq<u8> {
    match o {
        None => "None".spec_bytes(),
        Some(inner) => "Some(".spec_bytes() + inner + ")".spec_bytes(),
    }
}

/// Appends the text of an optional single-byte value.
pub(crate) fn push_opt_u8(out: &mut String, o: Option<u8>)
    ensures
        encode_utf8(final (out)@) == encode_utf8(old(out)@) + opt_text(
            match o {
                None => None,
                Some(v) => Some(dec_digits(v as nat)),
            },
        ),
{
    match o {
        None => push_str(out, "None"),
        Some(v) => {
            push_str(out, "Some(");
            push_dec_u32(out, v as u32);
            push_str(out, ")");
            proof {
                assert(encode_utf8(final (out)@) =~= encode_utf8(old(out)@) + opt_text(
                    Some(dec_digits(v as nat)),
                ));
            }
        },
    }
}

/// Appends the text of an optional `u16`.
pub(crate) fn push_opt_u16(out: &mut String, o: Option<u16>)
    ensures
        encode_utf8(final (out)@) == encode_utf8(old(out)@) + opt_text(
            match o {
                None => None,
                Some(v) => Some(dec_digits(v as nat)),
            },
        ),
{
    match o {
        None => push_str(out, "None"),
        Some(v) => {
            push_str(out, "Some(");
            push_dec_u32(out, v as u32);
            push_str(out, ")");
            proof {
                assert(encode_utf8(final (out)@) =~= encode_utf8(old(out)@) + opt_text(
                    Some(dec_digits(v as nat)),
                ));
            }
        },
    }
}

/// Appends the text of an optional `u32`.
pub(crate) fn push_opt_u32(out: &mut String, o: Option<u32>)
    ensures
        encode_utf8(final (out)@) == encode_utf8(old(out)@) + opt_text(
            match o {
                None => None,
                Some(v) => Some(dec_digits(v as nat)),
            },
        ),
{
    match o {
        None => push_str(out, "None"),
        Some(v) => {
            push_str(out, "Some(");
            push_dec_u32(out, v);
            push_str(out, ")");
            proof {
                assert(encode_utf8(final (out)@) =~= encode_utf8(old(out)@) + opt_text(
                    Some(dec_digits(v as nat)),
                ));
            }
        },
    }
}

/// Appends the text of an optional 16-byte key.
pub(crate) fn push_opt_key(out: &mut String, o: &Option<[u8; 16]>)
    ensures
        encode_utf8(final (out)@) == encode_utf8(old(out)@) + opt_text(
            match *o {
                None => None,
                Some(k) => Some(byte_array_text(k@)),
            },
        ),
{
    match o {
        None => push_str(out, "None"),
        Some(k) => {
            push_str(out, "Some(");
            push_byte_array(out, k.as_slice());
            push_str(out, ")");
            proof {
                assert(encode_utf8(final (out)@) =~= encode_utf8(old(out)@) + opt_text(
                    Some(byte_array_text(k@)),
                ));
            }
        },
    }
}

/// Appends the debug text of an optional rate, e.g. `"Some(Rate9m)"`.
pub(crate) fn push_opt_rate(out: &mut String, o: Option<crate::types::rate::WifiPhyRate>)
    ensures
        encode_utf8(final (out)@) == encode_utf8(old(out)@) + opt_text(
            match o {
                None => None,
                Some(r) => Some(
                    "Rate".spec_bytes() + encode_utf8(crate::types::rate::spec_rate_name(r)),
                ),
            },
        ),
{
    match o {
        None => push_str(out, "None"),
        Some(r) => {
            push_str(out, "Some(");
            push_str(out, "Rate");
            let name = r.name();
            push_str(out, name.as_str());
            push_str(out, ")");
            proof {
                assert(encode_utf8(final (out)@) =~= encode_utf8(old(out)@) + opt_text(
                    Some(
                        "Rate".spec_bytes() + encode_utf8(crate::types::rate::spec_rate_name(r)),
                    ),
                ));
            }
        },
    }
}

/// UTF-8 encoding distributes over concatenation of character sequences.
pub proof fn lemma_encode_utf8_concat(a: Seq<char>, b: Seq<char>)
    ensures
        encode_utf8(a + b) == encode_utf8(a) + encode_utf8(b),
    decreases a.len(),
{
    if a.len() == 0 {
        assert(a + b =~= b);
        assert(encode_utf8(a) + encode_utf8(b) =~= encode_utf8(b));
    } else {
        assert((a + b)[0] == a[0]);
        assert((a + b).drop_first() =~= a.drop_first() + b);
        lemma_encode_utf8_concat(a.drop_first(), b);
        assert(encode_utf8(a + b) == encode_scalar((a + b)[0] as u32) + (encode_utf8(
            a.drop_first(),
        ) + encode_utf8(b)));
        assert(encode_scalar(a[0] as u32) + (encode_utf8(a.drop_first()) + encode_utf8(b)) =~= (
        encode_scalar(a[0] as u32) + encode_utf8(a.drop_first())) + encode_utf8(b));
    }
}

} // verus!
