//! Well-formedness of UTF-8 byte strings: the byte-level grammar of
//! RFC 3629 (shortest forms only, no surrogates, up to U+10FFFF), which is
//! exactly what the host's string decoding accepts.

use vstd::prelude::*;

verus! {

/// A continuation byte.
pub open spec fn spec_utf8_cont(b: u8) -> bool {
    0x80 <= b && b <= 0xBF
}

/// The byte string is a well-formed UTF-8 encoding.
pub open spec fn spec_utf8(s: Seq<u8>) -> bool
    decreases s.len(),
{
    if s.len() == 0 {
        true
    } else {
        let b0 = s[0];
        if b0 < 0x80 {
            spec_utf8(s.skip(1))
        } else if 0xC2 <= b0 && b0 <= 0xDF {
            if s.len() >= 2 {
                spec_utf8_cont(s[1]) && spec_utf8(s.skip(2))
            } else {
                false
            }
        } else if b0 == 0xE0 {
            if s.len() >= 3 {
                0xA0 <= s[1] && s[1] <= 0xBF && spec_utf8_cont(s[2]) && spec_utf8(s.skip(3))
            } else {
                false
            }
        } else if (0xE1 <= b0 && b0 <= 0xEC) || b0 == 0xEE || b0 == 0xEF {
            if s.len() >= 3 {
                spec_utf8_cont(s[1]) && spec_utf8_cont(s[2]) && spec_utf8(s.skip(3))
            } else {
                false
            }
        } else if b0 == 0xED {
            if s.len() >= 3 {
                0x80 <= s[1] && s[1] <= 0x9F && spec_utf8_cont(s[2]) && spec_utf8(s.skip(3))
            } else {
                false
            }
        } else if b0 == 0xF0 {
            if s.len() >= 4 {
                0x90 <= s[1] && s[1] <= 0xBF && spec_utf8_cont(s[2]) && spec_utf8_cont(s[3])
                    && spec_utf8(s.skip(4))
            } else {
                false
            }
        } else if 0xF1 <= b0 && b0 <= 0xF3 {
            if s.len() >= 4 {
                spec_utf8_cont(s[1]) && spec_utf8_cont(s[2]) && spec_utf8_cont(s[3]) && spec_utf8(
                    s.skip(4),
                )
            } else {
                false
            }
        } else if b0 == 0xF4 {
            if s.len() >= 4 {
                0x80 <= s[1] && s[1] <= 0x8F && spec_utf8_cont(s[2]) && spec_utf8_cont(s[3])
                    && spec_utf8(s.skip(4))
            } else {
                false
            }
        } else {
            false
        }
    }
}

/// Whether a byte continues a multi-byte sequence.
fn is_cont(b: u8) -> (r: bool)
    ensures
        r == spec_utf8_cont(b),
{
    0x80 <= b && b <= 0xBF
}

/// Checks that the byte string is well-formed UTF-8.
pub fn is_utf8(b: &[u8]) -> (r: bool)
    ensures
        r == spec_utf8(b@),
{
    let n = b.len();
    let mut i: usize = 0;
    proof {
        assert(b@.skip(0) =~= b@);
    }
    while i < n
        invariant
            i <= n,
            n == b@.len(),
            spec_utf8(b@) == spec_utf8(b@.skip(i as int)),
        decreases n - i,
    {
        let ghost rest = b@.skip(i as int);
        proof {
            assert(rest[0] == b@[i as int]);
        }
        let b0 = b[i];
        let width: usize;
        if b0 < 0x80 {
            width = 1;
        } else if 0xC2 <= b0 && b0 <= 0xDF {
            if n - i < 2 {
                return false;
            }
            proof {
                assert(rest[1] == b@[i + 1]);
            }
            if !is_cont(b[i + 1]) {
                return false;
            }
            width = 2;
        } else if b0 == 0xE0 {
            if n - i < 3 {
                return false;
            }
            proof {
                assert(rest[1] == b@[i + 1]);
                assert(rest[2] == b@[i + 2]);
            }
            if !(0xA0 <= b[i + 1] && b[i + 1] <= 0xBF) || !is_cont(b[i + 2]) {
                return false;
            }
            width = 3;
        } else if (0xE1 <= b0 && b0 <= 0xEC) || b0 == 0xEE || b0 == 0xEF {
            if n - i < 3 {
                return false;
            }
            proof {
                assert(rest[1] == b@[i + 1]);
                assert(rest[2] == b@[i + 2]);
            }
            if !is_cont(b[i + 1]) || !is_cont(b[i + 2]) {
                return false;
            }
            width = 3;
        } else if b0 == 0xED {
            if n - i < 3 {
                return false;
            }
            proof {
                assert(rest[1] == b@[i + 1]);
                assert(rest[2] == b@[i + 2]);
            }
            if !(0x80 <= b[i + 1] && b[i + 1] <= 0x9F) || !is_cont(b[i + 2]) {
                return false;
            }
            width = 3;
        } else if b0 == 0xF0 {
            if n - i < 4 {
                return false;
            }
            proof {
                assert(rest[1] == b@[i + 1]);
                assert(rest[2] == b@[i + 2]);
                assert(rest[3] == b@[i + 3]);
            }
            if !(0x90 <= b[i + 1] && b[i + 1] <= 0xBF) || !is_cont(b[i + 2]) || !is_cont(
                b[i + 3],
            ) {
                return false;
            }
            width = 4;
        } else if 0xF1 <= b0 && b0 <= 0xF3 {
            if n - i < 4 {
                return false;
            }
            proof {
                assert(rest[1] == b@[i + 1]);
                assert(rest[2] == b@[i + 2]);
                assert(rest[3] == b@[i + 3]);
            }
            if !is_cont(b[i + 1]) || !is_cont(b[i + 2]) || !is_cont(b[i + 3]) {
                return false;
            }
            width = 4;
        } else if b0 == 0xF4 {
            if n - i < 4 {
                return false;
            }
            proof {
                assert(rest[1] == b@[i + 1]);
                assert(rest[2] == b@[i + 2]);
                assert(rest[3] == b@[i + 3]);
            }
            if !(0x80 <= b[i + 1] && b[i + 1] <= 0x8F) || !is_cont(b[i + 2]) || !is_cont(
                b[i + 3],
            ) {
                return false;
            }
            width = 4;
        } else {
            return false;
        }
        proof {
            assert(rest.skip(width as int) =~= b@.skip(i + width));
        }
        i += width;
    }
    proof {
        assert(b@.skip(n as int) =~= Seq::<u8>::empty());
    }
    true
}

} // verus!
