use vstd::prelude::*;
use vstd::string::StringExecFns;

verus! {

/// The ASCII character of one decimal digit.
pub open spec fn digit_char(d: nat) -> char {
    if d == 0 {
        '0'
    } else if d == 1 {
        '1'
    } else if d == 2 {
        '2'
    } else if d == 3 {
        '3'
    } else if d == 4 {
        '4'
    } else if d == 5 {
        '5'
    } else if d == 6 {
        '6'
    } else if d == 7 {
        '7'
    } else if d == 8 {
        '8'
    } else {
        '9'
    }
}

/// The decimal digits of `n`, most significant first, with no leading
/// zero except for `n == 0` itself.
pub open spec fn spec_digits(n: nat) -> Seq<char>
    decreases n,
{
    if n < 10 {
        seq![digit_char(n)]
    } else {
        spec_digits(n / 10).push(digit_char(n % 10))
    }
}

/// The digits of `n`, left-padded with zeros to at least three places.
pub open spec fn spec_zero_padded(n: nat) -> Seq<char> {
    if n < 10 {
        seq!['0', '0'] + spec_digits(n)
    } else if n < 100 {
        seq!['0'] + spec_digits(n)
    } else {
        spec_digits(n)
    }
}

/// The artifact name of page `n`: "page-", the zero-padded sequence
/// number, and the ".jpg" suffix.
pub open spec fn spec_page_name(n: nat) -> Seq<char> {
    "page-"@ + spec_zero_padded(n) + ".jpg"@
}

fn digit_str(d: usize) -> (r: &'static str)
    requires
        d < 10,
    ensures
        r@ == seq![digit_char(d as nat)],
{
    proof {
        reveal_strlit("0");
        reveal_strlit("1");
        reveal_strlit("2");
        reveal_strlit("3");
        reveal_strlit("4");
        reveal_strlit("5");
        reveal_strlit("6");
        reveal_strlit("7");
        reveal_strlit("8");
        reveal_strlit("9");
    }
    if d == 0 {
        "0"
    } else if d == 1 {
        "1"
    } else if d == 2 {
        "2"
    } else if d == 3 {
        "3"
    } else if d == 4 {
        "4"
    } else if d == 5 {
        "5"
    } else if d == 6 {
        "6"
    } else if d == 7 {
        "7"
    } else if d == 8 {
        "8"
    } else {
        "9"
    }
}

fn push_decimal(s: &mut String, n: usize)
    ensures
        final(s)@ == old(s)@ + spec_digits(n as nat),
    decreases n,
{
    if n < 10 {
        s.append(digit_str(n));
    } else {
        push_decimal(s, n / 10);
        s.append(digit_str(n % 10));
        proof {
            assert(final(s)@ =~= old(s)@ + spec_digits(n as nat));
        }
    }
}

/// Builds the artifact file name for 1-based page number `n`,
/// zero-padded to at least three digits, e.g. page 7 to "page-007.jpg".
pub fn page_file_name(n: usize) -> (r: String)
    ensures
        r@ == spec_page_name(n as nat),
{
    let mut s: String = "page-".to_owned();
    if n < 10 {
        s.append("00");
    } else if n < 100 {
        s.append("0");
    }
    push_decimal(&mut s, n);
    s.append(".jpg");
    proof {
        reveal_strlit("page-");
        reveal_strlit("00");
        reveal_strlit("0");
        reveal_strlit(".jpg");
        assert(("00")@ =~= seq!['0', '0']);
        assert(("0")@ =~= seq!['0']);
        assert(s@ =~= spec_page_name(n as nat));
    }
    s
}

} // verus!
