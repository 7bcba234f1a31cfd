//! Small verified helpers for strings: equality and decimal rendering.
use vstd::prelude::*;
use vstd::string::StringExecFns;

verus! {

/// Compares two string slices by their character sequences.
pub fn str_eq(a: &str, b: &str) -> (r: bool)
    ensures
        r == (a@ == b@),
{
    let sa: String = a.to_owned();
    let sb: String = b.to_owned();
    sa == sb
}

/// The decimal digit character for a value below ten.
pub open spec fn spec_digit(n: int) -> char {
    if n == 0 {
        '0'
    } else if n == 1 {
        '1'
    } else if n == 2 {
        '2'
    } else if n == 3 {
        '3'
    } else if n == 4 {
        '4'
    } else if n == 5 {
        '5'
    } else if n == 6 {
        '6'
    } else if n == 7 {
        '7'
    } else if n == 8 {
        '8'
    } else {
        '9'
    }
}

/// The decimal rendering of a natural number, most significant digit first.
pub open spec fn spec_decimal(n: int) -> Seq<char>
    decreases n,
{
    if n < 10 {
        seq![spec_digit(n)]
    } else {
        spec_decimal(n / 10).push(spec_digit(n % 10))
    }
}

fn digit_str(n: u64) -> (r: &'static str)
    requires
        n < 10,
    ensures
        r@ =~= seq![spec_digit(n as int)],
{
    proof {
        reveal_strlit("0");
        reveal_strlit("1");
        reveal_strlit("2");
        reveal_strlit("3");
        reveal_strlit("4");
        reveal_strlit("5");
        reveal_strlit("6");
        reveal_strlit("7");
        reveal_strlit("8");
        reveal_strlit("9");
    }
    if n == 0 {
        "0"
    } else if n == 1 {
        "1"
    } else if n == 2 {
        "2"
    } else if n == 3 {
        "3"
    } else if n == 4 {
        "4"
    } else if n == 5 {
        "5"
    } else if n == 6 {
        "6"
    } else if n == 7 {
        "7"
    } else if n == 8 {
        "8"
    } else {
        "9"
    }
}

/// Renders a number in decimal.
pub fn u64_to_string(n: u64) -> (r: String)
    ensures
        r@ == spec_decimal(n as int),
    decreases n,
{
    if n < 10 {
        let mut s = String::new();
        s.append(digit_str(n));
        assert(s@ =~= spec_decimal(n as int));
        s
    } else {
        let mut s = u64_to_string(n / 10);
        s.append(digit_str(n % 10));
        assert(s@ =~= spec_decimal(n as int));
        s
    }
}

/// The decimal rendering of a natural number, left-padded with zeros to two
/// places.
pub open spec fn spec_decimal_pad2(n: int) -> Seq<char> {
    if n < 10 {
        seq!['0'].add(spec_decimal(n))
    } else {
        spec_decimal(n)
    }
}

/// The decimal rendering of a natural number, left-padded with zeros to four
/// places.
pub open spec fn spec_decimal_pad4(n: int) -> Seq<char> {
    if n < 10 {
        seq!['0', '0', '0'].add(spec_decimal(n))
    } else if n < 100 {
        seq!['0', '0'].add(spec_decimal(n))
    } else if n < 1000 {
        seq!['0'].add(spec_decimal(n))
    } else {
        spec_decimal(n)
    }
}

/// Renders a number in decimal, left-padded with zeros to two places.
pub fn u64_to_string_pad2(n: u64) -> (r: String)
    ensures
        r@ == spec_decimal_pad2(n as int),
{
    if n < 10 {
        let mut s = String::new();
        s.append(digit_str(0));
        s.append(digit_str(n));
        assert(s@ =~= seq!['0'].add(spec_decimal(n as int)));
        s
    } else {
        u64_to_string(n)
    }
}

/// Renders a number in decimal, left-padded with zeros to four places.
pub fn u64_to_string_pad4(n: u64) -> (r: String)
    ensures
        r@ == spec_decimal_pad4(n as int),
{
    if n >= 1000 {
        u64_to_string(n)
    } else {
        let mut s = String::new();
        s.append(digit_str(0));
        if n >= 100 {
            let t = u64_to_string(n);
            s.append(t.as_str());
            assert(s@ =~= seq!['0'].add(spec_decimal(n as int)));
            s
        } else if n >= 10 {
            s.append(digit_str(0));
            let t = u64_to_string(n);
            s.append(t.as_str());
            assert(s@ =~= seq!['0', '0'].add(spec_decimal(n as int)));
            s
        } else {
            s.append(digit_str(0));
            s.append(digit_str(0));
            s.append(digit_str(n));
            assert(s@ =~= seq!['0', '0', '0'].add(spec_decimal(n as int)));
            s
        }
    }
}

} // verus!
