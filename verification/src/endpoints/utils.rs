//! Helpers for rendering query and form values.

use rand::distributions::Alphanumeric;
use rand::{thread_rng, Rng};
use vstd::prelude::*;

verus! {

/// An ASCII digit or letter.
pub open spec fn spec_alphanumeric(c: char) -> bool {
    ('0' <= c && c <= '9') || ('a' <= c && c <= 'z') || ('A' <= c && c <= 'Z')
}

/// A fresh ten-character deduplication id for a pot transfer.
///
/// Relies on rand's `thread_rng`, `Rng::sample_iter` and the `Alphanumeric`
/// distribution: every sampled byte is one of the 62 ASCII alphanumeric
/// characters and the sample stream is unbounded, so taking ten of them
/// yields exactly ten such characters. Nothing is assumed about which
/// characters come back.
#[verifier::external_body]
pub(crate) fn dedupe_id() -> (r: String)
    ensures
        r@.len() == 10,
        forall|i: int| 0 <= i < r@.len() ==> spec_alphanumeric(r@[i]),
{
    thread_rng().sample_iter(&Alphanumeric).map(char::from).take(10).collect()
}

/// The decimal digit character for one digit value.
pub open spec fn digit_char(d: nat) -> char {
    if d == 0 {
        '0'
    } else if d == 1 {
        '1'
    } else if d == 2 {
        '2'
    } else if d == 3 {
        '3'
    } else if d == 4 {
        '4'
    } else if d == 5 {
        '5'
    } else if d == 6 {
        '6'
    } else if d == 7 {
        '7'
    } else if d == 8 {
        '8'
    } else {
        '9'
    }
}

/// The decimal rendering of a number, most significant digit first, with no
/// leading zeros (and "0" for zero).
pub open spec fn spec_decimal(n: nat) -> Seq<char>
    decreases n,
{
    if n < 10 {
        seq![digit_char(n)]
    } else {
        spec_decimal(n / 10).push(digit_char(n % 10))
    }
}

/// The characters of the collected digits (least significant first) read
/// back to front.
spec fn rev_digit_chars(ds: Seq<u64>) -> Seq<char>
    decreases ds.len(),
{
    if ds.len() == 0 {
        Seq::empty()
    } else {
        rev_digit_chars(ds.drop_first()) + seq![digit_char(ds.first() as nat)]
    }
}

proof fn lemma_rev_digit_chars_push(ds: Seq<u64>, d: u64)
    ensures
        rev_digit_chars(ds.push(d)) == seq![digit_char(d as nat)] + rev_digit_chars(ds),
    decreases ds.len(),
{
    let p = ds.push(d);
    assert(p.len() == ds.len() + 1);
    assert(rev_digit_chars(p) == rev_digit_chars(p.drop_first()) + seq![
        digit_char(p.first() as nat),
    ]);
    if ds.len() == 0 {
        assert(p.first() == d);
        assert(p.drop_first() =~= Seq::<u64>::empty());
        assert(rev_digit_chars(Seq::<u64>::empty()) == Seq::<char>::empty());
        assert(rev_digit_chars(p) =~= seq![digit_char(d as nat)] + rev_digit_chars(ds));
    } else {
        assert(p.first() == ds.first());
        assert(p.drop_first() =~= ds.drop_first().push(d));
        lemma_rev_digit_chars_push(ds.drop_first(), d);
        assert(rev_digit_chars(p) =~= seq![digit_char(d as nat)] + rev_digit_chars(ds));
    }
}

/// One digit as a string slice.
fn digit_str(d: u64) -> (s: &'static str)
    requires
        d < 10,
    ensures
        s@ =~= seq![digit_char(d as nat)],
        s.is_ascii(),
{
    proof {
        reveal_strlit("0");
        reveal_strlit("1");
        reveal_strlit("2");
        reveal_strlit("3");
        reveal_strlit("4");
        reveal_strlit("5");
        reveal_strlit("6");
        reveal_strlit("7");
        reveal_strlit("8");
        reveal_strlit("9");
    }
    if d == 0 {
        "0"
    } else if d == 1 {
        "1"
    } else if d == 2 {
        "2"
    } else if d == 3 {
        "3"
    } else if d == 4 {
        "4"
    } else if d == 5 {
        "5"
    } else if d == 6 {
        "6"
    } else if d == 7 {
        "7"
    } else if d == 8 {
        "8"
    } else {
        "9"
    }
}

/// Render a number in decimal.
pub fn u64_to_string(n: u64) -> (s: String)
    ensures
        s@ == spec_decimal(n as nat),
{
    let mut digits: Vec<u64> = Vec::new();
    let mut m: u64 = n;
    loop
        invariant_except_break
            digits@.len() == 0 ==> m == n,
            digits@.len() > 0 ==> m > 0 && spec_decimal(n as nat) == spec_decimal(m as nat)
                + rev_digit_chars(digits@),
        invariant
            forall|i: int| 0 <= i < digits@.len() ==> digits@[i] < 10,
        ensures
            digits@.len() > 0,
            spec_decimal(n as nat) == rev_digit_chars(digits@),
        decreases m + if digits@.len() == 0 {
            1nat
        } else {
            0nat
        },
    {
        let ghost old_digits = digits@;
        let ghost old_m = m;
        let d = m % 10;
        digits.push(d);
        m = m / 10;
        proof {
            lemma_rev_digit_chars_push(old_digits, d);
            if old_digits.len() == 0 {
                assert(rev_digit_chars(digits@) =~= seq![digit_char(d as nat)]);
                if m > 0 {
                    assert(spec_decimal(old_m as nat) == spec_decimal(m as nat).push(
                        digit_char(d as nat),
                    ));
                    assert(spec_decimal(m as nat).push(digit_char(d as nat)) =~= spec_decimal(
                        m as nat,
                    ) + rev_digit_chars(digits@));
                } else {
                    assert(spec_decimal(n as nat) =~= rev_digit_chars(digits@));
                }
            } else {
                if old_m > 0 {
                    if m > 0 {
                        assert(spec_decimal(old_m as nat) == spec_decimal(m as nat).push(
                            digit_char(d as nat),
                        ));
                        assert(spec_decimal(m as nat) + rev_digit_chars(digits@) =~= (spec_decimal(
                            m as nat,
                        ).push(digit_char(d as nat))) + rev_digit_chars(old_digits));
                    } else {
                        assert(spec_decimal(old_m as nat) =~= seq![digit_char(d as nat)]);
                        assert(rev_digit_chars(digits@) =~= seq![digit_char(d as nat)]
                            + rev_digit_chars(old_digits));
                        assert(spec_decimal(n as nat) =~= rev_digit_chars(digits@));
                    }
                }
            }
        }
        if m == 0 {
            break;
        }
    }
    let mut s = String::new();
    let mut i: usize = digits.len();
    while i > 0
        invariant
            i <= digits@.len(),
            forall|j: int| 0 <= j < digits@.len() ==> digits@[j] < 10,
            s@ == rev_digit_chars(digits@.skip(i as int)),
        decreases i,
    {
        let ghost old_i = i as int;
        i = i - 1;
        let c = digit_str(digits[i]);
        s.append(c);
        proof {
            assert(digits@.skip(i as int).drop_first() =~= digits@.skip(old_i));
            assert(rev_digit_chars(digits@.skip(i as int)) == rev_digit_chars(digits@.skip(old_i))
                + seq![digit_char(digits@[i as int] as nat)]);
        }
    }
    proof {
        assert(digits@.skip(0) =~= digits@);
    }
    s
}

} // verus!
