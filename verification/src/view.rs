//! Bounded, allocation-disciplined preview of a byte buffer.
//!
//! The preview renders a buffer into at most `n` bytes of text by a fixed
//! three-stage policy: valid UTF-8 that fits is returned verbatim; valid
//! UTF-8 that is too long is truncated at the last whole-character
//! boundary at or before `n - 3` and given a trailing `"..."`; anything
//! else falls back to space-separated lowercase hex, truncated to fit,
//! with `"..."` only when bytes were dropped and there is room.
use vstd::prelude::*;
use vstd::string::StringExecFns;
use vstd::string::StringSliceAdditionalSpecFns;
use vstd::utf8::decode_utf8;
use vstd::utf8::encode_utf8;
use vstd::utf8::is_ascii_chars;
use vstd::utf8::is_ascii_chars_encode_utf8;
use vstd::utf8::is_char_boundary;
use vstd::utf8::valid_utf8;
use vstd::utf8::valid_utf8_split;
use vstd::utf8::decode_utf8_split;

use crate::format_mac::spec_mac_group;
use crate::format_mac::push_hex_group;
use crate::text::bytes_to_str;
use crate::text::lemma_encode_utf8_concat;

verus! {

/// The three ASCII bytes of the `"..."` truncation marker.
pub open spec fn ellipsis() -> Seq<u8> {
    seq![46u8, 46u8, 46u8]
}

/// The largest character boundary of `s` at or before position `m`
/// (position 0 counts, so the result is never negative).
pub open spec fn last_boundary(s: Seq<u8>, m: int) -> int
    decreases m,
{
    if m <= 0 {
        0
    } else if is_char_boundary(s, m) {
        m
    } else {
        last_boundary(s, m - 1)
    }
}

/// The first `count` bytes of `data` as lowercase two-digit hex pairs,
/// separated by single spaces.
pub open spec fn hex_pairs(data: Seq<u8>, count: int) -> Seq<u8>
    decreases count,
{
    if count <= 0 {
        Seq::empty()
    } else if count == 1 {
        spec_mac_group(data[0])
    } else {
        hex_pairs(data, count - 1) + seq![32u8] + spec_mac_group(data[count - 1])
    }
}

/// The hex-fallback stage: up to `(n - 3) / 3` bytes as spaced hex, with
/// a trailing marker only when bytes were dropped and it still fits.
pub open spec fn hex_fallback(data: Seq<u8>, n: int) -> Seq<u8> {
    if n < 3 {
        Seq::empty()
    } else {
        let cap = (n - 3) / 3;
        let show = if data.len() <= cap {
            data.len() as int
        } else {
            cap
        };
        let body = hex_pairs(data, show);
        if data.len() > cap && body.len() > 0 && body.len() + 3 <= n {
            body + ellipsis()
        } else {
            body
        }
    }
}

/// The preview of `data` at width `n`, as UTF-8 bytes: the full
/// three-stage policy.
pub open spec fn preview_bytes(data: Seq<u8>, n: int) -> Seq<u8> {
    if valid_utf8(data) && data.len() <= n {
        data
    } else if valid_utf8(data) && last_boundary(data, n - 3) > 0 {
        data.subrange(0, last_boundary(data, n - 3)) + ellipsis()
    } else {
        hex_fallback(data, n)
    }
}

/// The spaced hex form of `c` bytes occupies `3c - 1` bytes.
proof fn lemma_hex_pairs_len(data: Seq<u8>, c: int)
    ensures
        hex_pairs(data, c).len() == if c <= 0 {
            0int
        } else {
            3 * c - 1
        },
    decreases c,
{
    if c <= 0 {
    } else if c == 1 {
    } else {
        lemma_hex_pairs_len(data, c - 1);
    }
}

/// The result of `last_boundary` is a character boundary at or before
/// `m`, and no later one exists up to `m`.
proof fn lemma_last_boundary(s: Seq<u8>, m: int)
    requires
        valid_utf8(s),
    ensures
        0 <= last_boundary(s, m),
        m >= 0 ==> last_boundary(s, m) <= m,
        is_char_boundary(s, last_boundary(s, m)),
    decreases m,
{
    if m <= 0 {
    } else if is_char_boundary(s, m) {
    } else {
        lemma_last_boundary(s, m - 1);
    }
}

/// A boundary at or before `m` with no boundary after it (up to `m`) is
/// exactly `last_boundary`.
proof fn lemma_last_boundary_pinned(s: Seq<u8>, m: int, e: int)
    requires
        valid_utf8(s),
        0 <= e <= m,
        is_char_boundary(s, e),
        forall|p: int| e < p <= m ==> !#[trigger] is_char_boundary(s, p),
    ensures
        last_boundary(s, m) == e,
    decreases m,
{
    if m == e {
        if m <= 0 {
        }
    } else {
        assert(!is_char_boundary(s, m));
        lemma_last_boundary_pinned(s, m - 1, e);
    }
}

/// Law: a truncated valid-UTF-8 preview never splits a character. The
/// bytes kept before the marker split `data` at a character boundary,
/// form valid UTF-8 themselves, and decode to a prefix of the decoded
/// characters of `data`.
pub proof fn lemma_preview_never_splits_chars(data: Seq<u8>, n: int)
    requires
        valid_utf8(data),
        data.len() > n,
        last_boundary(data, n - 3) > 0,
    ensures
        ({
            let e = last_boundary(data, n - 3);
            &&& preview_bytes(data, n) == data.subrange(0, e) + ellipsis()
            &&& is_char_boundary(data, e)
            &&& valid_utf8(data.subrange(0, e))
            &&& decode_utf8(data) == decode_utf8(data.subrange(0, e)) + decode_utf8(
                data.subrange(e, data.len() as int),
            )
        }),
{
    let e = last_boundary(data, n - 3);
    lemma_last_boundary(data, n - 3);
    if n - 3 < 0 {
        assert(e == 0);
    }
    valid_utf8_split(data, e);
    decode_utf8_split(data, e);
}

/// Appends a single space separator.
fn push_space(out: &mut String)
    ensures
        encode_utf8(final (out)@) == encode_utf8(old(out)@) + seq![32u8],
{
    proof {
        reveal_strlit(" ");
        assert(is_ascii_chars(" "@));
        is_ascii_chars_encode_utf8(" "@);
        assert(" ".spec_bytes() =~= seq![32u8]);
    }
    out.append(" ");
    proof {
        lemma_encode_utf8_concat(old(out)@, " "@);
    }
}

/// Appends the `"..."` truncation marker.
fn push_ellipsis(out: &mut String)
    ensures
        encode_utf8(final (out)@) == encode_utf8(old(out)@) + ellipsis(),
{
    proof {
        reveal_strlit("...");
        assert(is_ascii_chars("..."@));
        is_ascii_chars_encode_utf8("..."@);
        assert("...".spec_bytes() =~= ellipsis());
    }
    out.append("...");
    proof {
        lemma_encode_utf8_concat(old(out)@, "..."@);
    }
}

/// Renders the hex-fallback stage.
fn hex_view(data: &[u8], n: usize) -> (r: String)
    ensures
        encode_utf8(r@) == hex_fallback(data@, n as int),
{
    if n < 3 {
        let r = String::new();
        proof {
            assert(encode_utf8(r@) =~= hex_fallback(data@, n as int));
        }
        return r;
    }
    let cap = (n - 3) / 3;
    let show = if data.len() <= cap {
        data.len()
    } else {
        cap
    };
    let mut out = String::new();
    proof {
        assert(encode_utf8(out@) =~= hex_pairs(data@, 0));
    }
    let mut t: usize = 0;
    while t < show
        invariant
            t <= show,
            show <= data@.len(),
            encode_utf8(out@) == hex_pairs(data@, t as int),
        decreases show - t,
    {
        if t > 0 {
            push_space(&mut out);
        }
        push_hex_group(&mut out, data[t]);
        t += 1;
    }
    proof {
        lemma_hex_pairs_len(data@, show as int);
    }
    let body_len = out.as_str().len();
    proof {
        assert(body_len == hex_pairs(data@, show as int).len());
    }
    if data.len() > cap && body_len > 0 && body_len + 3 <= n {
        push_ellipsis(&mut out);
    }
    out
}

/// Renders a byte buffer as bounded human-readable text of at most `n`
/// bytes: verbatim when it is UTF-8 that fits, truncated at a character
/// boundary with a `"..."` marker when it is UTF-8 that does not, and as
/// space-separated lowercase hex otherwise.
pub fn display_vec(data: &[u8], n: usize) -> (r: String)
    ensures
        encode_utf8(r@) == preview_bytes(data@, n as int),
{
    let dlen = data.len();
    let parsed = bytes_to_str(data);
    match parsed {
        Some(st) => {
            if dlen <= n {
                return String::from_str(st);
            }
            let max_len = if n >= 3 {
                n - 3
            } else {
                0
            };
            let ghost s = data@;
            let mut end = max_len;
            proof {
                lemma_last_boundary(s, max_len as int);
            }
            while !st.is_char_boundary(end)
                invariant
                    0 <= end <= max_len,
                    valid_utf8(s),
                    st.spec_bytes() == s,
                    forall|p: int| end < p <= max_len ==> !#[trigger] is_char_boundary(s, p),
                decreases end,
            {
                proof {
                    if end == 0 {
                        assert(is_char_boundary(s, 0));
                    }
                }
                end = end - 1;
            }
            proof {
                lemma_last_boundary_pinned(s, max_len as int, end as int);
            }
            if end > 0 {
                let pieces = st.split_at(end);
                let mut out = String::from_str(pieces.0);
                proof {
                    assert(encode_utf8(out@) == s.subrange(0, end as int));
                }
                push_ellipsis(&mut out);
                out
            } else {
                hex_view(data, n)
            }
        },
        None => hex_view(data, n),
    }
}

} // verus!