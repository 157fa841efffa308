//! Decimal quotation values.
//!
//! The vendor encodes every price and indicator value as a decimal split
//! into integer `units` (a decimal string) and a fractional `nano` part
//! (billionths). The library interprets such a value exactly, as a single
//! fixed-point integer in nano-units; a malformed or out-of-range `units`
//! string counts as zero units, and a value beyond `i64` saturates.

use vstd::prelude::*;

verus! {

/// A decimal value: integer part as a string, fractional part in
/// billionths.
#[derive(Debug, Clone)]
pub struct Quotation {
    pub units: String,
    pub nano: i32,
}

/// Mathematical image of a [`Quotation`].
pub ghost struct QuotationView {
    pub units: Seq<char>,
    pub nano: int,
}

impl View for Quotation {
    type V = QuotationView;

    open spec fn view(&self) -> QuotationView {
        QuotationView { units: self.units@, nano: self.nano as int }
    }
}

/// Nano-unit value of a quotation view, saturated to `i64`.
pub open spec fn spec_nano(q: QuotationView) -> int {
    clamp_i64(quotation_value(q.units, q.nano))
}

/// An ASCII decimal digit.
pub open spec fn is_dec_digit(c: char) -> bool {
    48 <= c as int && c as int <= 57
}

/// Every character of `s` is a decimal digit.
pub open spec fn all_digits(s: Seq<char>) -> bool {
    forall|i: int| 0 <= i < s.len() ==> is_dec_digit(#[trigger] s[i])
}

/// Value of a most-significant-first digit string.
pub open spec fn dec_value(s: Seq<char>) -> int
    decreases s.len(),
{
    if s.len() == 0 {
        0
    } else {
        dec_value(s.drop_last()) * 10 + (s.last() as int - 48)
    }
}

/// What `str::parse::<i64>` accepts and yields: an optional single sign,
/// then at least one digit, the value within `i64`'s range.
pub open spec fn parsed_i64(s: Seq<char>) -> Option<int> {
    if s.len() > 0 && (s[0] == '-' || s[0] == '+') {
        let mag = s.drop_first();
        if mag.len() > 0 && all_digits(mag) {
            let v: int = if s[0] == '-' {
                -dec_value(mag)
            } else {
                dec_value(mag)
            };
            if i64::MIN <= v <= i64::MAX {
                Some(v)
            } else {
                None
            }
        } else {
            None
        }
    } else if s.len() > 0 && all_digits(s) {
        if dec_value(s) <= i64::MAX {
            Some(dec_value(s))
        } else {
            None
        }
    } else {
        None
    }
}

/// `v` pulled back into `i64`'s range.
pub open spec fn clamp_i64(v: int) -> int {
    if v > i64::MAX {
        i64::MAX as int
    } else if v < i64::MIN {
        i64::MIN as int
    } else {
        v
    }
}

/// Exact value of a quotation in nano-units, before saturation: parsed
/// units (zero when malformed) times a billion, plus the nano part.
pub open spec fn quotation_value(units: Seq<char>, nano: int) -> int {
    let u: int = match parsed_i64(units) {
        Some(v) => v,
        None => 0,
    };
    u * 1_000_000_000 + nano
}

proof fn lemma_dec_value_step(s: Seq<char>, i: int)
    requires
        0 <= i < s.len(),
    ensures
        dec_value(s.subrange(0, i + 1)) == dec_value(s.subrange(0, i)) * 10 + (s[i] as int - 48),
{
    let pre = s.subrange(0, i + 1);
    assert(pre.drop_last() =~= s.subrange(0, i));
    assert(pre.last() == s[i]);
}

proof fn lemma_dec_value_nonneg(s: Seq<char>)
    requires
        all_digits(s),
    ensures
        dec_value(s) >= 0,
    decreases s.len(),
{
    if s.len() > 0 {
        assert(all_digits(s.drop_last())) by {
            assert(forall|i: int|
                0 <= i < s.len() - 1 ==> #[trigger] s.drop_last()[i] == s[i]);
        }
        lemma_dec_value_nonneg(s.drop_last());
    }
}

/// Parses a decimal integer exactly as `str::parse::<i64>` would: `None`
/// on a malformed string or one whose value does not fit in `i64`.
pub fn parse_decimal_i64(s: &str) -> (r: Option<i64>)
    ensures
        parsed_i64(s@) matches Some(v) ==> r == Some(v as i64) && i64::MIN <= v <= i64::MAX,
        parsed_i64(s@) is None ==> r is None,
{
    let len = s.unicode_len();
    let mut i: usize = 0;
    let mut neg = false;
    if len > 0 {
        let c0 = s.get_char(0);
        if c0 == '-' {
            neg = true;
            i = 1;
        } else if c0 == '+' {
            i = 1;
        }
    }
    if i == len {
        return None;
    }
    let ghost start = i as int;
    let ghost mag = s@.subrange(start, len as int);
    let mut acc: u128 = 0;
    let mut over = false;
    while i < len
        invariant
            start <= i as int <= len == s@.len(),
            start == 0 || start == 1,
            start == 1 ==> s@[0] == '-' || s@[0] == '+',
            start == 0 ==> !(s@[0] == '-') && !(s@[0] == '+'),
            neg == (s@[0] == '-'),
            mag == s@.subrange(start, len as int),
            mag.len() > 0,
            all_digits(s@.subrange(start, i as int)),
            !over ==> acc as int == dec_value(s@.subrange(start, i as int)) && acc
                <= 0x8000_0000_0000_0000,
            over ==> dec_value(s@.subrange(start, i as int)) > 0x8000_0000_0000_0000,
        decreases len - i,
    {
        let c = s.get_char(i);
        let d = c as u32;
        if d < 48 || d > 57 {
            proof {
                assert(!is_dec_digit(mag[i - start]));
                if start == 1 {
                    assert(s@.drop_first() =~= mag);
                } else {
                    assert(s@ =~= mag);
                }
            }
            return None;
        }
        proof {
            lemma_dec_value_step(s@.subrange(start, len as int), i - start);
            assert(s@.subrange(start, len as int).subrange(0, i - start) =~= s@.subrange(
                start,
                i as int,
            ));
            assert(s@.subrange(start, len as int).subrange(0, i - start + 1) =~= s@.subrange(
                start,
                i as int + 1,
            ));
            assert(forall|j: int|
                0 <= j < i as int + 1 - start ==> #[trigger] s@.subrange(start, i as int + 1)[j]
                    == s@.subrange(start, len as int)[j]);
            if over {
                let prev = dec_value(s@.subrange(start, i as int));
                assert(prev * 10 >= prev) by (nonlinear_arith)
                    requires
                        prev >= 0,
                ;
            }
        }
        if !over {
            acc = acc * 10 + (d - 48) as u128;
            if acc > 0x8000_0000_0000_0000 {
                over = true;
            }
        }
        i = i + 1;
    }
    proof {
        assert(s@.subrange(start, i as int) =~= mag);
        if start == 1 {
            assert(s@.drop_first() =~= mag);
        } else {
            assert(s@ =~= mag);
        }
        lemma_dec_value_nonneg(mag);
    }
    if over {
        return None;
    }
    if neg {
        let w: i128 = -(acc as i128);
        Some(w as i64)
    } else {
        if acc > 0x7fff_ffff_ffff_ffff {
            return None;
        }
        Some(acc as i64)
    }
}

impl Quotation {
    /// The quotation's value in nano-units, saturated to `i64`.
    pub fn to_nano(&self) -> (v: i64)
        ensures
            v as int == spec_nano(self@),
    {
        match parse_decimal_i64(&self.units) {
            Some(u) => {
                let w: i128 = (u as i128) * 1_000_000_000 + (self.nano as i128);
                if w > 0x7fff_ffff_ffff_ffff {
                    i64::MAX
                } else if w < -0x8000_0000_0000_0000 {
                    i64::MIN
                } else {
                    w as i64
                }
            },
            None => self.nano as i64,
        }
    }
}

} // verus!
