//! Small helpers shared by the command modules: rendering a numeric
//! identifier as the decimal text that stands in a URL path, and the rule
//! that an empty optional field means an absent one.

use vstd::prelude::*;

verus! {

/// The character for a single decimal digit.
pub open spec fn digit_char(d: nat) -> char {
    if d == 0 {
        '0'
    } else if d == 1 {
        '1'
    } else if d == 2 {
        '2'
    } else if d == 3 {
        '3'
    } else if d == 4 {
        '4'
    } else if d == 5 {
        '5'
    } else if d == 6 {
        '6'
    } else if d == 7 {
        '7'
    } else if d == 8 {
        '8'
    } else {
        '9'
    }
}

/// The decimal representation of `n`, most significant digit first,
/// with no leading zeros (and `0` written as "0").
pub open spec fn dec_rep(n: nat) -> Seq<char>
    decreases n,
{
    if n < 10 {
        seq![digit_char(n)]
    } else {
        dec_rep(n / 10) + seq![digit_char(n % 10)]
    }
}

/// The characters of the digits `ds`, read from the last to the first.
spec fn rev_digit_chars(ds: Seq<u64>) -> Seq<char>
    decreases ds.len(),
{
    if ds.len() == 0 {
        Seq::empty()
    } else {
        seq![digit_char(ds.last() as nat)] + rev_digit_chars(ds.drop_last())
    }
}

/// The digits still owed by the loop: none once `m` has been consumed.
spec fn pending_chars(m: nat) -> Seq<char> {
    if m == 0 {
        Seq::empty()
    } else {
        dec_rep(m)
    }
}

/// A one-character string for the decimal digit `d`.
fn digit_str(d: u64) -> (s: &'static str)
    requires
        d < 10,
    ensures
        s@ =~= seq![digit_char(d as nat)],
{
    proof {
        reveal_strlit("0");
        reveal_strlit("1");
        reveal_strlit("2");
        reveal_strlit("3");
        reveal_strlit("4");
        reveal_strlit("5");
        reveal_strlit("6");
        reveal_strlit("7");
        reveal_strlit("8");
        reveal_strlit("9");
    }
    match d {
        0 => "0",
        1 => "1",
        2 => "2",
        3 => "3",
        4 => "4",
        5 => "5",
        6 => "6",
        7 => "7",
        8 => "8",
        _ => "9",
    }
}

/// Renders `n` in decimal, exactly as it stands in a URL path.
pub fn u64_to_decimal(n: u64) -> (s: String)
    ensures
        s@ == dec_rep(n as nat),
{
    let mut digits: Vec<u64> = Vec::new();
    digits.push(n % 10);
    let mut m: u64 = n / 10;
    proof {
        assert(rev_digit_chars(Seq::<u64>::empty()) =~= Seq::<char>::empty());
        assert(digits@.drop_last() =~= Seq::<u64>::empty());
        assert(rev_digit_chars(digits@) =~= seq![digit_char((n % 10) as nat)]);
        if m > 0 {
            assert(dec_rep(n as nat) =~= dec_rep((n / 10) as nat)
                + seq![digit_char((n % 10) as nat)]);
        }
        assert(dec_rep(n as nat) =~= pending_chars(m as nat) + rev_digit_chars(digits@));
    }
    while m > 0
        invariant
            forall|i: int| 0 <= i < digits@.len() ==> digits@[i] < 10,
            dec_rep(n as nat) =~= pending_chars(m as nat) + rev_digit_chars(digits@),
        decreases m,
    {
        let d = m % 10;
        let m2 = m / 10;
        proof {
            assert(rev_digit_chars(digits@.push(d)) =~= seq![digit_char(d as nat)]
                + rev_digit_chars(digits@)) by {
                assert(digits@.push(d).drop_last() =~= digits@);
            }
            if m2 > 0 {
                assert(dec_rep(m as nat) =~= dec_rep(m2 as nat) + seq![digit_char(d as nat)]);
            }
        }
        digits.push(d);
        m = m2;
    }
    let mut s = String::new();
    let mut i: usize = digits.len();
    proof {
        assert(digits@.take(digits@.len() as int) =~= digits@);
        assert(dec_rep(n as nat) =~= s@ + rev_digit_chars(digits@.take(i as int)));
    }
    while i > 0
        invariant
            i <= digits@.len(),
            forall|j: int| 0 <= j < digits@.len() ==> digits@[j] < 10,
            dec_rep(n as nat) =~= s@ + rev_digit_chars(digits@.take(i as int)),
        decreases i,
    {
        i = i - 1;
        proof {
            let taken = digits@.take(i as int + 1);
            assert(taken.drop_last() =~= digits@.take(i as int));
            assert(rev_digit_chars(taken) =~= seq![digit_char(digits@[i as int] as nat)]
                + rev_digit_chars(digits@.take(i as int)));
        }
        s.append(digit_str(digits[i]));
    }
    proof {
        assert(digits@.take(0) =~= Seq::<u64>::empty());
        assert(s@ =~= dec_rep(n as nat));
    }
    s
}

/// The rule for optional textual fields: an empty value means the field
/// is absent. Turns an empty string into `None` and keeps any other
/// string as it is.
pub fn empty_to_none(s: String) -> (r: Option<String>)
    ensures
        s@.len() == 0 ==> r is None,
        s@.len() > 0 ==> r == Some(s),
{
    if s.as_str().unicode_len() == 0 {
        None
    } else {
        Some(s)
    }
}

} // verus!
