use vstd::prelude::*;
use crate::color::Color;

verus! {

/// ASCII code of `'0'`.
pub const DIGIT_ZERO: u8 = 48;

/// ASCII space.
pub const SPACE: u8 = 32;

/// ASCII line feed.
pub const NEWLINE: u8 = 10;

/// Whether `b` is an ASCII decimal digit.
pub open spec fn is_digit(b: u8) -> bool {
    DIGIT_ZERO <= b <= DIGIT_ZERO + 9
}

/// The decimal digits of `n`, most significant first, with no leading zero.
pub open spec fn decimal(n: nat) -> Seq<u8>
    decreases n,
{
    if n < 10 {
        seq![(DIGIT_ZERO + n) as u8]
    } else {
        decimal(n / 10) + seq![(DIGIT_ZERO + n % 10) as u8]
    }
}

/// The number that a string of decimal digits spells.
pub open spec fn decimal_value(s: Seq<u8>) -> nat
    decreases s.len(),
{
    if s.len() == 0 {
        0
    } else {
        decimal_value(s.drop_last()) * 10 + (s.last() - DIGIT_ZERO) as nat
    }
}

/// The header: the plain-text RGB format tag, then `width height`, then
/// `255`, one per line.
pub open spec fn header_text(width: u32, height: u32) -> Seq<u8> {
    seq![80u8, 51u8, NEWLINE] + decimal(width as nat) + seq![SPACE] + decimal(height as nat)
        + seq![NEWLINE] + seq![50u8, 53u8, 53u8, NEWLINE]
}

/// One pixel: its three quantized levels, each followed by a space, then a
/// line feed.
pub open spec fn pixel_text(c: Color) -> Seq<u8> {
    decimal(c.r.spec_quantize() as nat) + seq![SPACE] + decimal(c.g.spec_quantize() as nat)
        + seq![SPACE] + decimal(c.b.spec_quantize() as nat) + seq![SPACE, NEWLINE]
}

/// `decimal(n)` is a non-empty run of digits that spells `n` back.
pub proof fn lemma_decimal_round_trip(n: nat)
    ensures
        decimal(n).len() >= 1,
        forall|i: int| 0 <= i < decimal(n).len() ==> is_digit(#[trigger] decimal(n)[i]),
        decimal_value(decimal(n)) == n,
    decreases n,
{
    if n < 10 {
        assert(decimal(n).drop_last() =~= Seq::<u8>::empty());
        assert(decimal(n).last() == DIGIT_ZERO + n);
        assert(decimal_value(decimal(n).drop_last()) == 0);
        assert(decimal_value(decimal(n)) == n);
    } else {
        lemma_decimal_round_trip(n / 10);
        let d = decimal(n);
        assert(d.drop_last() =~= decimal(n / 10));
        assert(d.last() == DIGIT_ZERO + n % 10);
        assert(decimal_value(d) == decimal_value(decimal(n / 10)) * 10 + n % 10);
        assert((n / 10) * 10 + n % 10 == n);
        assert forall|i: int| 0 <= i < d.len() implies is_digit(#[trigger] d[i]) by {
            if i < d.len() - 1 {
                assert(d[i] == decimal(n / 10)[i]);
            }
        }
    }
}

/// The width and height written in the header read back as the values that
/// were written, in that order: the second line is the digits of the width,
/// one space, the digits of the height and a line feed.
pub proof fn lemma_header_dims_round_trip(width: u32, height: u32)
    ensures
        ({
            let t = header_text(width, height);
            let a = decimal(width as nat).len() as int;
            let b = decimal(height as nat).len() as int;
            &&& t.len() == 3 + a + 1 + b + 1 + 4
            &&& t.subrange(0, 3) == seq![80u8, 51u8, NEWLINE]
            &&& forall|i: int| 3 <= i < 3 + a ==> is_digit(#[trigger] t[i])
            &&& decimal_value(t.subrange(3, 3 + a)) == width
            &&& t[3 + a] == SPACE
            &&& forall|i: int| 4 + a <= i < 4 + a + b ==> is_digit(#[trigger] t[i])
            &&& decimal_value(t.subrange(4 + a, 4 + a + b)) == height
            &&& t[4 + a + b] == NEWLINE
        }),
{
    lemma_decimal_round_trip(width as nat);
    lemma_decimal_round_trip(height as nat);
    let t = header_text(width, height);
    let dw = decimal(width as nat);
    let dh = decimal(height as nat);
    let a = dw.len() as int;
    let b = dh.len() as int;
    assert(t.subrange(0, 3) =~= seq![80u8, 51u8, NEWLINE]);
    assert(t.subrange(3, 3 + a) =~= dw);
    assert(t.subrange(4 + a, 4 + a + b) =~= dh);
    assert forall|i: int| 3 <= i < 3 + a implies is_digit(#[trigger] t[i]) by {
        assert(t[i] == dw[i - 3]);
    }
    assert forall|i: int| 4 + a <= i < 4 + a + b implies is_digit(#[trigger] t[i]) by {
        assert(t[i] == dh[i - 4 - a]);
    }
}

/// Appends the decimal digits of `n`.
pub fn push_decimal(out: &mut Vec<u8>, n: u32)
    ensures
        final(out)@ == old(out)@ + decimal(n as nat),
    decreases n,
{
    if n >= 10 {
        push_decimal(out, n / 10);
    }
    let d: u8 = (n % 10) as u8;
    out.push(DIGIT_ZERO + d);
    proof {
        if n >= 10 {
            assert(final(out)@ =~= old(out)@ + decimal(n as nat));
        } else {
            assert(final(out)@ =~= old(out)@ + decimal(n as nat));
        }
    }
}

} // verus!
