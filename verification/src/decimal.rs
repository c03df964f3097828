//! Decimal rendering of unsigned integers.
//!
//! Generated recording file names embed a timestamp as its decimal digits;
//! this module renders a `u64` exactly as its mathematical decimal
//! representation and proves that representation injective, so that distinct
//! timestamps always yield distinct file names.

use vstd::prelude::*;

verus! {

/// The character for the decimal digit `d`.
pub open spec fn spec_digit_char(d: nat) -> char {
    if d == 0 {
        '0'
    } else if d == 1 {
        '1'
    } else if d == 2 {
        '2'
    } else if d == 3 {
        '3'
    } else if d == 4 {
        '4'
    } else if d == 5 {
        '5'
    } else if d == 6 {
        '6'
    } else if d == 7 {
        '7'
    } else if d == 8 {
        '8'
    } else {
        '9'
    }
}

/// The decimal representation of `n`, most significant digit first, with no
/// leading zeros (a single `'0'` for zero itself).
pub open spec fn spec_decimal(n: nat) -> Seq<char>
    decreases n,
{
    if n < 10 {
        seq![spec_digit_char(n)]
    } else {
        spec_decimal(n / 10).push(spec_digit_char(n % 10))
    }
}

/// A decimal representation is never empty.
pub proof fn lemma_decimal_len_pos(n: nat)
    ensures
        spec_decimal(n).len() >= 1,
    decreases n,
{
    if n >= 10 {
        lemma_decimal_len_pos(n / 10);
    }
}

/// Digit characters identify their digits.
proof fn lemma_digit_char_injective(a: nat, b: nat)
    requires
        a < 10,
        b < 10,
        spec_digit_char(a) == spec_digit_char(b),
    ensures
        a == b,
{
}

/// Distinct numbers have distinct decimal representations.
pub proof fn lemma_decimal_injective(a: nat, b: nat)
    requires
        spec_decimal(a) == spec_decimal(b),
    ensures
        a == b,
    decreases a,
{
    if a < 10 && b < 10 {
        assert(spec_decimal(a)[0] == spec_digit_char(a));
        assert(spec_decimal(b)[0] == spec_digit_char(b));
        lemma_digit_char_injective(a, b);
    } else if a < 10 && b >= 10 {
        lemma_decimal_len_pos(b / 10);
        assert(spec_decimal(b).len() >= 2);
    } else if a >= 10 && b < 10 {
        lemma_decimal_len_pos(a / 10);
        assert(spec_decimal(a).len() >= 2);
    } else {
        let da = spec_decimal(a / 10);
        let db = spec_decimal(b / 10);
        assert(da.push(spec_digit_char(a % 10)).last() == spec_digit_char(a % 10));
        assert(db.push(spec_digit_char(b % 10)).last() == spec_digit_char(b % 10));
        lemma_digit_char_injective(a % 10, b % 10);
        assert(da =~= db) by {
            assert(da.push(spec_digit_char(a % 10)).drop_last() =~= da);
            assert(db.push(spec_digit_char(b % 10)).drop_last() =~= db);
        }
        lemma_decimal_injective(a / 10, b / 10);
    }
}

/// The string for a single decimal digit.
fn digit_to_string(d: u64) -> (s: String)
    requires
        d < 10,
    ensures
        s@ == seq![spec_digit_char(d as nat)],
{
    if d == 0 {
        let s = String::from_str("0");
        proof {
            reveal_strlit("0");
            assert(s@ =~= seq![spec_digit_char(d as nat)]);
        }
        s
    } else if d == 1 {
        let s = String::from_str("1");
        proof {
            reveal_strlit("1");
            assert(s@ =~= seq![spec_digit_char(d as nat)]);
        }
        s
    } else if d == 2 {
        let s = String::from_str("2");
        proof {
            reveal_strlit("2");
            assert(s@ =~= seq![spec_digit_char(d as nat)]);
        }
        s
    } else if d == 3 {
        let s = String::from_str("3");
        proof {
            reveal_strlit("3");
            assert(s@ =~= seq![spec_digit_char(d as nat)]);
        }
        s
    } else if d == 4 {
        let s = String::from_str("4");
        proof {
            reveal_strlit("4");
            assert(s@ =~= seq![spec_digit_char(d as nat)]);
        }
        s
    } else if d == 5 {
        let s = String::from_str("5");
        proof {
            reveal_strlit("5");
            assert(s@ =~= seq![spec_digit_char(d as nat)]);
        }
        s
    } else if d == 6 {
        let s = String::from_str("6");
        proof {
            reveal_strlit("6");
            assert(s@ =~= seq![spec_digit_char(d as nat)]);
        }
        s
    } else if d == 7 {
        let s = String::from_str("7");
        proof {
            reveal_strlit("7");
            assert(s@ =~= seq![spec_digit_char(d as nat)]);
        }
        s
    } else if d == 8 {
        let s = String::from_str("8");
        proof {
            reveal_strlit("8");
            assert(s@ =~= seq![spec_digit_char(d as nat)]);
        }
        s
    } else {
        let s = String::from_str("9");
        proof {
            reveal_strlit("9");
            assert(s@ =~= seq![spec_digit_char(d as nat)]);
        }
        s
    }
}

/// Renders `n` in decimal, exactly as [`spec_decimal`] describes.
pub fn u64_to_decimal(n: u64) -> (s: String)
    ensures
        s@ == spec_decimal(n as nat),
{
    let mut s: String = digit_to_string(n % 10);
    let mut m: u64 = n / 10;
    proof {
        if m == 0 {
            assert(s@ =~= spec_decimal(n as nat));
        } else {
            assert(spec_decimal(n as nat) =~= spec_decimal(m as nat) + s@);
        }
    }
    while m > 0
        invariant
            m > 0 ==> spec_decimal(n as nat) == spec_decimal(m as nat) + s@,
            m == 0 ==> s@ == spec_decimal(n as nat),
        decreases m,
    {
        let ghost prev_m = m as nat;
        let ghost prev = s@;
        let d: u64 = m % 10;
        let ds = digit_to_string(d);
        s = ds.concat(s.as_str());
        m = m / 10;
        proof {
            assert(s@ =~= seq![spec_digit_char(prev_m % 10)] + prev);
            if prev_m < 10 {
                assert(spec_decimal(prev_m) =~= seq![spec_digit_char(prev_m)]);
                assert(spec_decimal(n as nat) =~= s@);
            } else {
                assert(spec_decimal(prev_m) =~= spec_decimal(prev_m / 10).push(
                    spec_digit_char(prev_m % 10),
                ));
                assert(spec_decimal(n as nat) =~= spec_decimal(m as nat) + s@);
            }
        }
    }
    s
}

} // verus!
