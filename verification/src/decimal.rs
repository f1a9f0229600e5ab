//! Decimal rendering of machine integers, for status lines that name row and
//! column numbers.

use vstd::prelude::*;
use vstd::string::StringExecFns;

verus! {

/// The character of one decimal digit.
pub open spec fn spec_digit_char(d: int) -> char {
    if d == 0 {
        '0'
    } else if d == 1 {
        '1'
    } else if d == 2 {
        '2'
    } else if d == 3 {
        '3'
    } else if d == 4 {
        '4'
    } else if d == 5 {
        '5'
    } else if d == 6 {
        '6'
    } else if d == 7 {
        '7'
    } else if d == 8 {
        '8'
    } else {
        '9'
    }
}

/// The decimal rendering of a non-negative integer, most significant digit
/// first and without leading zeroes (zero itself is `0`).
pub open spec fn spec_decimal(n: int) -> Seq<char>
    decreases n,
{
    if n < 10 {
        seq![spec_digit_char(n)]
    } else {
        spec_decimal(n / 10).push(spec_digit_char(n % 10))
    }
}

/// The digit characters of a digit list, last digit first.
pub open spec fn rev_digit_chars(ds: Seq<u8>) -> Seq<char> {
    Seq::new(ds.len(), |i: int| spec_digit_char(ds[ds.len() - 1 - i] as int))
}

/// One digit as a string slice.
fn digit_str(d: u8) -> (r: &'static str)
    requires
        d < 10,
    ensures
        r@ == seq![spec_digit_char(d as int)],
{
    match d {
        0 => {
            proof {
                reveal_strlit("0");
                assert("0"@ =~= seq![spec_digit_char(0)]);
            }
            "0"
        },
        1 => {
            proof {
                reveal_strlit("1");
                assert("1"@ =~= seq![spec_digit_char(1)]);
            }
            "1"
        },
        2 => {
            proof {
                reveal_strlit("2");
                assert("2"@ =~= seq![spec_digit_char(2)]);
            }
            "2"
        },
        3 => {
            proof {
                reveal_strlit("3");
                assert("3"@ =~= seq![spec_digit_char(3)]);
            }
            "3"
        },
        4 => {
            proof {
                reveal_strlit("4");
                assert("4"@ =~= seq![spec_digit_char(4)]);
            }
            "4"
        },
        5 => {
            proof {
                reveal_strlit("5");
                assert("5"@ =~= seq![spec_digit_char(5)]);
            }
            "5"
        },
        6 => {
            proof {
                reveal_strlit("6");
                assert("6"@ =~= seq![spec_digit_char(6)]);
            }
            "6"
        },
        7 => {
            proof {
                reveal_strlit("7");
                assert("7"@ =~= seq![spec_digit_char(7)]);
            }
            "7"
        },
        8 => {
            proof {
                reveal_strlit("8");
                assert("8"@ =~= seq![spec_digit_char(8)]);
            }
            "8"
        },
        _ => {
            proof {
                reveal_strlit("9");
                assert("9"@ =~= seq![spec_digit_char(9)]);
            }
            "9"
        },
    }
}

/// Renders a number in decimal.
pub fn u64_to_string(n: u64) -> (r: String)
    ensures
        r@ == spec_decimal(n as int),
{
    let mut digits: Vec<u8> = Vec::new();
    digits.push((n % 10) as u8);
    proof {
        assert(rev_digit_chars(digits@) =~= seq![spec_digit_char(n as int % 10)]);
        if n < 10 {
            assert(spec_decimal(n as int) == seq![spec_digit_char(n as int)]);
        }
    }
    let mut m = n / 10;
    while m > 0
        invariant
            digits@.len() >= 1,
            forall|i: int| 0 <= i < digits@.len() ==> #[trigger] digits@[i] < 10,
            m > 0 ==> spec_decimal(n as int) == spec_decimal(m as int) + rev_digit_chars(digits@),
            m == 0 ==> spec_decimal(n as int) == rev_digit_chars(digits@),
        decreases m,
    {
        let ghost before = digits@;
        let d = (m % 10) as u8;
        digits.push(d);
        proof {
            assert(rev_digit_chars(digits@) =~= seq![spec_digit_char(m as int % 10)]
                + rev_digit_chars(before));
            if m >= 10 {
                assert(spec_decimal(m as int) == spec_decimal(m as int / 10).push(
                    spec_digit_char(m as int % 10),
                ));
                assert(spec_decimal(m as int / 10) + rev_digit_chars(digits@) =~= spec_decimal(
                    m as int,
                ) + rev_digit_chars(before));
            } else {
                assert(spec_decimal(m as int) == seq![spec_digit_char(m as int)]);
                assert(rev_digit_chars(digits@) =~= spec_decimal(m as int) + rev_digit_chars(
                    before,
                ));
            }
        }
        m = m / 10;
    }
    let mut r = String::new();
    let total = digits.len();
    let mut k: usize = 0;
    while k < total
        invariant
            k <= total,
            total == digits@.len(),
            forall|i: int| 0 <= i < digits@.len() ==> #[trigger] digits@[i] < 10,
            spec_decimal(n as int) == rev_digit_chars(digits@),
            r@ == rev_digit_chars(digits@).subrange(0, k as int),
        decreases total - k,
    {
        let d = digits[total - 1 - k];
        let piece = digit_str(d);
        r.append(piece);
        proof {
            assert(rev_digit_chars(digits@)[k as int] == spec_digit_char(
                digits@[digits@.len() - 1 - k] as int,
            ));
            assert(r@ =~= rev_digit_chars(digits@).subrange(0, k + 1));
        }
        k = k + 1;
    }
    proof {
        assert(r@ =~= rev_digit_chars(digits@));
    }
    r
}

} // verus!
