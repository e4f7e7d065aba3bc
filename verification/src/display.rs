//! Rendering device output for the console. A chunk of bytes read from
//! the device is printed as-is when it is valid UTF-8; otherwise every
//! byte of the chunk is shown as a `\xHH` escape, four characters per
//! byte, in the original order. The bytes on the wire are never altered:
//! this is a display rule only.

use vstd::prelude::*;

verus! {

/// A UTF-8 continuation byte: `0x80..=0xBF`.
pub open spec fn is_cont(b: u8) -> bool {
    0x80 <= b && b <= 0xBF
}

/// Well-formed UTF-8, per the encoding's defining table: ASCII stands
/// alone; lead bytes `0xC2..=0xDF`, `0xE0..=0xEF` and `0xF0..=0xF4` open
/// two-, three- and four-byte sequences with the usual restrictions on
/// the first continuation byte (no overlong forms, no surrogates, no
/// code points above `0x10FFFF`).
pub open spec fn valid_utf8(s: Seq<u8>) -> bool
    decreases s.len(),
{
    if s.len() == 0 {
        true
    } else {
        let b0 = s[0];
        if b0 <= 0x7F {
            valid_utf8(s.skip(1))
        } else if 0xC2 <= b0 && b0 <= 0xDF {
            s.len() >= 2 && is_cont(s[1]) && valid_utf8(s.skip(2))
        } else if b0 == 0xE0 {
            s.len() >= 3 && 0xA0 <= s[1] && s[1] <= 0xBF && is_cont(s[2]) && valid_utf8(s.skip(3))
        } else if b0 == 0xED {
            s.len() >= 3 && 0x80 <= s[1] && s[1] <= 0x9F && is_cont(s[2]) && valid_utf8(s.skip(3))
        } else if 0xE1 <= b0 && b0 <= 0xEF {
            s.len() >= 3 && is_cont(s[1]) && is_cont(s[2]) && valid_utf8(s.skip(3))
        } else if b0 == 0xF0 {
            s.len() >= 4 && 0x90 <= s[1] && s[1] <= 0xBF && is_cont(s[2]) && is_cont(s[3])
                && valid_utf8(s.skip(4))
        } else if 0xF1 <= b0 && b0 <= 0xF3 {
            s.len() >= 4 && is_cont(s[1]) && is_cont(s[2]) && is_cont(s[3]) && valid_utf8(
                s.skip(4),
            )
        } else if b0 == 0xF4 {
            s.len() >= 4 && 0x80 <= s[1] && s[1] <= 0x8F && is_cont(s[2]) && is_cont(s[3])
                && valid_utf8(s.skip(4))
        } else {
            false
        }
    }
}

/// The upper-case hexadecimal digit for a value below sixteen.
pub open spec fn hex_digit(n: u8) -> u8 {
    if n < 10 {
        (0x30 + n) as u8
    } else {
        (0x37 + n) as u8
    }
}

/// The four-byte escape `\xHH` for one byte, upper-case digits.
pub open spec fn escape_byte(b: u8) -> Seq<u8> {
    seq![0x5Cu8, 0x78u8, hex_digit(b / 16), hex_digit(b % 16)]
}

/// The escaped form of a whole chunk: each byte's escape, in order.
pub open spec fn escape_bytes(s: Seq<u8>) -> Seq<u8>
    decreases s.len(),
{
    if s.len() == 0 {
        Seq::empty()
    } else {
        escape_byte(s[0]) + escape_bytes(s.skip(1))
    }
}

/// What the console is given for one chunk: the chunk itself when it is
/// valid UTF-8, its escaped form otherwise.
pub open spec fn spec_render(s: Seq<u8>) -> Seq<u8> {
    if valid_utf8(s) {
        s
    } else {
        escape_bytes(s)
    }
}

/// Appending one byte appends its escape.
pub proof fn lemma_escape_push(s: Seq<u8>, b: u8)
    ensures
        escape_bytes(s.push(b)) == escape_bytes(s) + escape_byte(b),
    decreases s.len(),
{
    let t = s.push(b);
    if s.len() == 0 {
        assert(t[0] == b);
        assert(t.skip(1) =~= Seq::<u8>::empty());
        assert(escape_bytes(t) == escape_byte(b) + escape_bytes(Seq::<u8>::empty()));
        assert(escape_bytes(t) =~= escape_bytes(s) + escape_byte(b));
    } else {
        assert(t[0] == s[0]);
        assert(t.skip(1) =~= s.skip(1).push(b));
        lemma_escape_push(s.skip(1), b);
        assert(escape_bytes(t) == escape_byte(s[0]) + (escape_bytes(s.skip(1)) + escape_byte(b)));
        assert(escape_bytes(s) == escape_byte(s[0]) + escape_bytes(s.skip(1)));
        assert(escape_bytes(t) =~= escape_bytes(s) + escape_byte(b));
    }
}

/// Escaping a chunk yields exactly one four-character token per byte.
pub proof fn lemma_escape_len(s: Seq<u8>)
    ensures
        escape_bytes(s).len() == 4 * s.len(),
    decreases s.len(),
{
    if s.len() > 0 {
        lemma_escape_len(s.skip(1));
    }
}

/// The token for the byte at position `i` stands at position `4 * i` of
/// the escaped chunk: the escapes come one per byte, in original order.
pub proof fn lemma_escape_tokens(s: Seq<u8>, i: int)
    requires
        0 <= i < s.len(),
    ensures
        escape_bytes(s).subrange(4 * i, 4 * i + 4) == escape_byte(s[i]),
    decreases i,
{
    lemma_escape_len(s);
    if i == 0 {
        assert(escape_bytes(s).subrange(0, 4) =~= escape_byte(s[0]));
    } else {
        lemma_escape_len(s.skip(1));
        lemma_escape_tokens(s.skip(1), i - 1);
        assert(escape_bytes(s).subrange(4 * i, 4 * i + 4) =~= escape_bytes(s.skip(1)).subrange(
            4 * (i - 1),
            4 * (i - 1) + 4,
        ));
    }
}

/// The upper-case hexadecimal digit, at runtime.
fn hex_digit_byte(n: u8) -> (r: u8)
    requires
        n < 16,
    ensures
        r == hex_digit(n),
{
    if n < 10 {
        0x30 + n
    } else {
        0x37 + n
    }
}

/// Decide whether a chunk is well-formed UTF-8.
pub fn utf8_check(s: &[u8]) -> (r: bool)
    ensures
        r == valid_utf8(s@),
{
    let n = s.len();
    let mut i: usize = 0;
    proof {
        assert(s@.skip(0) =~= s@);
    }
    while i < n
        invariant
            i <= n,
            n == s@.len(),
            valid_utf8(s@) == valid_utf8(s@.skip(i as int)),
        decreases n - i,
    {
        let b0 = s[i];
        if b0 <= 0x7F {
            proof {
                assert(s@.skip(i as int).skip(1) =~= s@.skip(i as int + 1));
            }
            i = i + 1;
        } else if 0xC2 <= b0 && b0 <= 0xDF {
            if n - i < 2 || !(0x80 <= s[i + 1] && s[i + 1] <= 0xBF) {
                return false;
            }
            proof {
                assert(s@.skip(i as int).skip(2) =~= s@.skip(i as int + 2));
            }
            i = i + 2;
        } else if 0xE0 <= b0 && b0 <= 0xEF {
            if n - i < 3 {
                return false;
            }
            let b1 = s[i + 1];
            let b2 = s[i + 2];
            let lo1: u8 = if b0 == 0xE0 {
                0xA0
            } else {
                0x80
            };
            let hi1: u8 = if b0 == 0xED {
                0x9F
            } else {
                0xBF
            };
            if !(lo1 <= b1 && b1 <= hi1) || !(0x80 <= b2 && b2 <= 0xBF) {
                return false;
            }
            proof {
                assert(s@.skip(i as int).skip(3) =~= s@.skip(i as int + 3));
            }
            i = i + 3;
        } else if 0xF0 <= b0 && b0 <= 0xF4 {
            if n - i < 4 {
                return false;
            }
            let b1 = s[i + 1];
            let b2 = s[i + 2];
            let b3 = s[i + 3];
            let lo1: u8 = if b0 == 0xF0 {
                0x90
            } else {
                0x80
            };
            let hi1: u8 = if b0 == 0xF4 {
                0x8F
            } else {
                0xBF
            };
            if !(lo1 <= b1 && b1 <= hi1) || !(0x80 <= b2 && b2 <= 0xBF) || !(0x80 <= b3 && b3
                <= 0xBF) {
                return false;
            }
            proof {
                assert(s@.skip(i as int).skip(4) =~= s@.skip(i as int + 4));
            }
            i = i + 4;
        } else {
            return false;
        }
    }
    proof {
        assert(s@.skip(n as int) =~= Seq::<u8>::empty());
    }
    true
}

/// Render one chunk of device output for the console: the chunk itself
/// when it is valid UTF-8, otherwise one `\xHH` escape per byte, in the
/// original order. Bytes are never dropped, and a malformed chunk never
/// aborts the pump.
pub fn render_chunk(chunk: &[u8]) -> (r: Vec<u8>)
    ensures
        r@ == spec_render(chunk@),
        valid_utf8(chunk@) ==> r@ == chunk@,
        !valid_utf8(chunk@) ==> r@ == escape_bytes(chunk@),
{
    if utf8_check(chunk) {
        vstd::slice::slice_to_vec(chunk)
    } else {
        let n = chunk.len();
        let mut out: Vec<u8> = Vec::new();
        let mut i: usize = 0;
        while i < n
            invariant
                i <= n,
                n == chunk@.len(),
                out@ == escape_bytes(chunk@.take(i as int)),
            decreases n - i,
        {
            let b = chunk[i];
            out.push(0x5C);
            out.push(0x78);
            out.push(hex_digit_byte(b / 16));
            out.push(hex_digit_byte(b % 16));
            proof {
                lemma_escape_push(chunk@.take(i as int), b);
                assert(chunk@.take(i as int).push(b) =~= chunk@.take(i as int + 1));
                assert(out@ =~= escape_bytes(chunk@.take(i as int + 1)));
            }
            i = i + 1;
        }
        proof {
            assert(chunk@.take(n as int) =~= chunk@);
        }
        out
    }
}

} // verus!
