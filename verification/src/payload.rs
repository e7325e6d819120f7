//! Rendering a payload reply for the report line.
//!
//! After a successful connect with a payload configured, the peer's reply —
//! up to `REPLY_CAP` raw bytes — is reported as text.  The reply is arbitrary
//! bytes, so the rendering must never fail: every well-formed UTF-8 scalar is
//! kept as it is, and every byte that does not begin one is replaced by the
//! replacement character.  The decoder below is total and proved against
//! vstd's model of UTF-8; on a reply that is valid UTF-8 (a faithful echo of
//! a text payload, say) it provably changes nothing.

use vstd::prelude::*;
use vstd::utf8::codepoint_width_2;
use vstd::utf8::codepoint_width_3;
use vstd::utf8::codepoint_width_4;
use vstd::utf8::valid_first_scalar;
use vstd::utf8::length_of_first_scalar;
use vstd::utf8::pop_first_scalar;
use vstd::utf8::valid_utf8;

verus! {

/// The UTF-8 encoding of the replacement character, byte by byte.
pub open spec fn replacement_bytes() -> Seq<u8> {
    seq![0xefu8, 0xbfu8, 0xbdu8]
}

/// The lossy rendering of `s[i..]`: each well-formed scalar encoding is kept,
/// each byte that does not begin one becomes the replacement character.
pub open spec fn spec_lossy_from(s: Seq<u8>, i: int) -> Seq<u8>
    decreases s.len() - i when 0 <= i <= s.len() via spec_lossy_from_decreases
{
    if i == s.len() {
        Seq::empty()
    } else if valid_first_scalar(s.skip(i)) {
        let w = length_of_first_scalar(s.skip(i));
        s.subrange(i, i + w) + spec_lossy_from(s, i + w)
    } else {
        replacement_bytes() + spec_lossy_from(s, i + 1)
    }
}

/// The first scalar's width is between one and four bytes and fits in `s`.
proof fn lemma_first_scalar_width(s: Seq<u8>)
    requires
        s.len() > 0,
        valid_first_scalar(s),
    ensures
        1 <= length_of_first_scalar(s) <= 4,
        length_of_first_scalar(s) <= s.len(),
{
}

#[via_fn]
proof fn spec_lossy_from_decreases(s: Seq<u8>, i: int) {
    if i < s.len() && valid_first_scalar(s.skip(i)) {
        lemma_first_scalar_width(s.skip(i));
    }
}

/// The lossy rendering of a whole reply.
pub open spec fn spec_lossy(s: Seq<u8>) -> Seq<u8> {
    spec_lossy_from(s, 0)
}

/// On valid UTF-8 the lossy rendering changes nothing.
pub proof fn lemma_lossy_identity_on_valid_utf8(s: Seq<u8>)
    requires
        valid_utf8(s),
    ensures
        spec_lossy(s) == s,
{
    assert(s.skip(0) =~= s);
    lemma_lossy_from_identity(s, 0);
}

/// The suffix form of the identity: a valid suffix renders as itself.
proof fn lemma_lossy_from_identity(s: Seq<u8>, i: int)
    requires
        0 <= i <= s.len(),
        valid_utf8(s.skip(i)),
    ensures
        spec_lossy_from(s, i) =~= s.skip(i),
    decreases s.len() - i,
{
    if i < s.len() {
        lemma_first_scalar_width(s.skip(i));
        let w = length_of_first_scalar(s.skip(i));
        assert(pop_first_scalar(s.skip(i)) =~= s.skip(i + w));
        lemma_lossy_from_identity(s, i + w);
        assert(s.subrange(i, i + w) + s.skip(i + w) =~= s.skip(i));
    }
}

/// Renders a reply as text bytes, losslessly where it is well-formed UTF-8
/// and with the replacement character where it is not.  Total: no reply can
/// make it fail.
pub fn utf8_lossy(s: &[u8]) -> (r: Vec<u8>)
    ensures
        r@ == spec_lossy(s@),
{
    let n = s.len();
    let mut out: Vec<u8> = Vec::new();
    let mut i: usize = 0;
    while i < n
        invariant
            0 <= i <= n == s@.len(),
            spec_lossy(s@) == out@ + spec_lossy_from(s@, i as int),
        decreases n - i,
    {
        let ghost suffix = s@.skip(i as int);
        let b0 = s[i];
        let mut width: usize = 0;
        if b0 <= 0x7f {
            width = 1;
        } else if 0xc0 <= b0 && b0 <= 0xdf && n - i >= 2 {
            let b1 = s[i + 1];
            if 0x80 <= b1 && b1 <= 0xbf {
                let cp: u32 = (((b0 & 0x1f) as u32) << 6u32) | ((b1 & 0x3f) as u32);
                proof {
                    assert(cp == codepoint_width_2(b0, b1));
                }
                if 0x80 <= cp && !(0xd800 <= cp && cp <= 0xdfff) {
                    width = 2;
                }
            }
        } else if 0xe0 <= b0 && b0 <= 0xef && n - i >= 3 {
            let b1 = s[i + 1];
            let b2 = s[i + 2];
            if 0x80 <= b1 && b1 <= 0xbf && 0x80 <= b2 && b2 <= 0xbf {
                let cp: u32 = (((b0 & 0x0f) as u32) << 12u32) | (((b1 & 0x3f) as u32) << 6u32) | ((b2
                    & 0x3f) as u32);
                proof {
                    assert(cp == codepoint_width_3(b0, b1, b2));
                }
                if 0x800 <= cp && !(0xd800 <= cp && cp <= 0xdfff) {
                    width = 3;
                }
            }
        } else if 0xf0 <= b0 && b0 <= 0xf7 && n - i >= 4 {
            let b1 = s[i + 1];
            let b2 = s[i + 2];
            let b3 = s[i + 3];
            if 0x80 <= b1 && b1 <= 0xbf && 0x80 <= b2 && b2 <= 0xbf && 0x80 <= b3 && b3 <= 0xbf {
                let cp: u32 = (((b0 & 0x07) as u32) << 18u32) | (((b1 & 0x3f) as u32) << 12u32) | (((
                    b2 & 0x3f) as u32) << 6u32) | ((b3 & 0x3f) as u32);
                proof {
                    assert(cp == codepoint_width_4(b0, b1, b2, b3));
                }
                if 0x10000 <= cp && cp <= 0x10ffff {
                    width = 4;
                }
            }
        }
        let ghost out0 = out@;
        if width == 0 {
            proof {
                assert(suffix[0] == b0);
                assert(suffix.len() >= 2 ==> suffix[1] == s@[i + 1]);
                assert(suffix.len() >= 3 ==> suffix[2] == s@[i + 2]);
                assert(suffix.len() >= 4 ==> suffix[3] == s@[i + 3]);
                assert(!valid_first_scalar(suffix));
            }
            out.push(0xef);
            out.push(0xbf);
            out.push(0xbd);
            proof {
                assert(out@ =~= out0 + replacement_bytes());
                assert(spec_lossy_from(s@, i as int) == replacement_bytes() + spec_lossy_from(
                    s@,
                    i + 1,
                ));
                assert(out0 + (replacement_bytes() + spec_lossy_from(s@, i + 1)) =~= (out0
                    + replacement_bytes()) + spec_lossy_from(s@, i + 1));
            }
            i = i + 1;
        } else {
            proof {
                assert(suffix[0] == b0);
                assert(width >= 2 ==> suffix[1] == s@[i + 1]);
                assert(width >= 3 ==> suffix[2] == s@[i + 2]);
                assert(width >= 4 ==> suffix[3] == s@[i + 3]);
                assert(valid_first_scalar(suffix));
                assert(length_of_first_scalar(suffix) == width);
            }
            let stop = i + width;
            let mut k = i;
            while k < stop
                invariant
                    i <= k <= stop <= n == s@.len(),
                    out@ == out0 + s@.subrange(i as int, k as int),
                decreases stop - k,
            {
                out.push(s[k]);
                proof {
                    assert(out@ =~= out0 + s@.subrange(i as int, k + 1));
                }
                k = k + 1;
            }
            proof {
                assert(spec_lossy_from(s@, i as int) == s@.subrange(i as int, i + width)
                    + spec_lossy_from(s@, i + width));
                assert(out0 + (s@.subrange(i as int, i + width) + spec_lossy_from(s@, i + width))
                    =~= (out0 + s@.subrange(i as int, i + width)) + spec_lossy_from(
                    s@,
                    i + width,
                ));
            }
            i = stop;
        }
    }
    proof {
        assert(spec_lossy_from(s@, n as int) =~= Seq::<u8>::empty());
        assert(out@ + Seq::<u8>::empty() =~= out@);
    }
    out
}

} // verus!
