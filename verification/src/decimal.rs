use vstd::prelude::*;
use vstd::string::StringExecFns;

verus! {

/// The character of one decimal digit.
pub open spec fn spec_digit_char(d: nat) -> char {
    if d == 0 {
        '0'
    } else if d == 1 {
        '1'
    } else if d == 2 {
        '2'
    } else if d == 3 {
        '3'
    } else if d == 4 {
        '4'
    } else if d == 5 {
        '5'
    } else if d == 6 {
        '6'
    } else if d == 7 {
        '7'
    } else if d == 8 {
        '8'
    } else {
        '9'
    }
}

/// The decimal notation of a number: no sign, no leading zero.
pub open spec fn spec_decimal(n: nat) -> Seq<char>
    decreases n,
{
    if n < 10 {
        seq![spec_digit_char(n)]
    } else {
        spec_decimal(n / 10) + seq![spec_digit_char(n % 10)]
    }
}

/// The digits of `ds`, least significant first, read back to front.
spec fn rev_digit_chars(ds: Seq<u64>) -> Seq<char>
    decreases ds.len(),
{
    if ds.len() == 0 {
        Seq::empty()
    } else {
        seq![spec_digit_char(ds.last() as nat)] + rev_digit_chars(ds.drop_last())
    }
}

proof fn lemma_rev_digit_chars_cons(x: u64, t: Seq<u64>)
    ensures
        rev_digit_chars(seq![x] + t) == rev_digit_chars(t) + seq![spec_digit_char(x as nat)],
    decreases t.len(),
{
    let u = seq![x] + t;
    assert(u.len() == 1 + t.len());
    if t.len() == 0 {
        assert(u.last() == x);
        assert(u.drop_last() =~= Seq::<u64>::empty());
        assert(rev_digit_chars(u) == seq![spec_digit_char(x as nat)] + rev_digit_chars(
            Seq::<u64>::empty(),
        ));
        assert(rev_digit_chars(u) =~= rev_digit_chars(t) + seq![spec_digit_char(x as nat)]);
    } else {
        lemma_rev_digit_chars_cons(x, t.drop_last());
        assert(u.drop_last() =~= seq![x] + t.drop_last());
        assert(u.last() == t.last());
        assert(rev_digit_chars(u) == seq![spec_digit_char(t.last() as nat)] + (rev_digit_chars(
            t.drop_last(),
        ) + seq![spec_digit_char(x as nat)]));
        assert(rev_digit_chars(t) == seq![spec_digit_char(t.last() as nat)] + rev_digit_chars(
            t.drop_last(),
        ));
        assert(rev_digit_chars(u) =~= rev_digit_chars(t) + seq![spec_digit_char(x as nat)]);
    }
}

fn digit_str(d: u64) -> (s: &'static str)
    requires
        d < 10,
    ensures
        s@ == seq![spec_digit_char(d as nat)],
{
    let s = match d {
        0 => "0",
        1 => "1",
        2 => "2",
        3 => "3",
        4 => "4",
        5 => "5",
        6 => "6",
        7 => "7",
        8 => "8",
        _ => "9",
    };
    proof {
        reveal_strlit("0");
        reveal_strlit("1");
        reveal_strlit("2");
        reveal_strlit("3");
        reveal_strlit("4");
        reveal_strlit("5");
        reveal_strlit("6");
        reveal_strlit("7");
        reveal_strlit("8");
        reveal_strlit("9");
        assert(s@ =~= seq![spec_digit_char(d as nat)]);
    }
    s
}

/// Write a number in decimal notation.
pub fn u64_to_string(n: u64) -> (s: String)
    ensures
        s@ == spec_decimal(n as nat),
{
    let mut digits: Vec<u64> = Vec::new();
    let mut m: u64 = n;
    digits.push(m % 10);
    m = m / 10;
    proof {
        assert(digits@ =~= seq![n % 10]);
        assert(digits@.drop_last() =~= Seq::<u64>::empty());
        assert(rev_digit_chars(Seq::<u64>::empty()) == Seq::<char>::empty());
        assert(rev_digit_chars(digits@) =~= seq![spec_digit_char((n % 10) as nat)]);
        if m == 0 {
            assert(spec_decimal(n as nat) =~= rev_digit_chars(digits@));
        } else {
            assert(spec_decimal(n as nat) =~= spec_decimal(m as nat) + rev_digit_chars(digits@));
        }
    }
    while m > 0
        invariant
            digits@.len() > 0,
            forall|j: int| 0 <= j < digits@.len() ==> digits@[j] < 10,
            m == 0 ==> spec_decimal(n as nat) == rev_digit_chars(digits@),
            m > 0 ==> spec_decimal(n as nat) == spec_decimal(m as nat) + rev_digit_chars(digits@),
        decreases m,
    {
        let ghost prev = digits@;
        let d: u64 = m % 10;
        digits.push(d);
        proof {
            assert(digits@.drop_last() =~= prev);
            assert(rev_digit_chars(digits@) =~= seq![spec_digit_char(d as nat)] + rev_digit_chars(
                prev,
            ));
            if m >= 10 {
                assert(spec_decimal(m as nat) == spec_decimal((m as nat) / 10) + seq![
                    spec_digit_char((m as nat) % 10),
                ]);
                assert(spec_decimal(n as nat) =~= spec_decimal((m / 10) as nat) + rev_digit_chars(
                    digits@,
                ));
            } else {
                assert(spec_decimal(m as nat) =~= seq![spec_digit_char(d as nat)]);
                assert(spec_decimal(n as nat) =~= rev_digit_chars(digits@));
            }
        }
        m = m / 10;
    }
    let mut s = String::new();
    let mut i: usize = digits.len();
    proof {
        assert(digits@.skip(digits@.len() as int) =~= Seq::<u64>::empty());
    }
    while i > 0
        invariant
            i <= digits@.len(),
            forall|j: int| 0 <= j < digits@.len() ==> digits@[j] < 10,
            spec_decimal(n as nat) == rev_digit_chars(digits@),
            s@ == rev_digit_chars(digits@.skip(i as int)),
        decreases i,
    {
        let d: u64 = digits[i - 1];
        s.append(digit_str(d));
        proof {
            assert(digits@.skip(i as int - 1) =~= seq![digits@[i as int - 1]] + digits@.skip(
                i as int,
            ));
            lemma_rev_digit_chars_cons(d, digits@.skip(i as int));
        }
        i = i - 1;
    }
    proof {
        assert(digits@.skip(0) =~= digits@);
    }
    s
}

} // verus!
