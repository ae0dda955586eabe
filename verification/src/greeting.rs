//! The plain-text greetings of the front page and of `/{name}`.

use vstd::prelude::*;

verus! {

/// The character of a decimal digit.
pub open spec fn digit_char(d: nat) -> char
    recommends
        d < 10,
{
    if d == 0 { '0' }
    else if d == 1 { '1' }
    else if d == 2 { '2' }
    else if d == 3 { '3' }
    else if d == 4 { '4' }
    else if d == 5 { '5' }
    else if d == 6 { '6' }
    else if d == 7 { '7' }
    else if d == 8 { '8' }
    else { '9' }
}

/// The decimal numeral of a natural number, without leading zeros.
pub open spec fn decimal(n: nat) -> Seq<char>
    decreases n,
{
    if n < 10 {
        seq![digit_char(n)]
    } else {
        decimal(n / 10) + seq![digit_char(n % 10)]
    }
}

/// The decimal numeral of an integer, with a leading `-` where it is negative.
pub open spec fn signed_decimal(n: int) -> Seq<char> {
    if n < 0 {
        seq!['-'] + decimal((-n) as nat)
    } else {
        decimal(n as nat)
    }
}

/// The value of a decimal digit character.
pub open spec fn digit_value(c: char) -> int {
    (c as int) - ('0' as int)
}

/// Whether a character is a decimal digit.
pub open spec fn is_digit(c: char) -> bool {
    '0' <= c && c <= '9'
}

/// The number that a string of decimal digits denotes, read most significant first.
pub open spec fn value_of_digits(s: Seq<char>) -> int
    decreases s.len(),
{
    if s.len() == 0 {
        0
    } else {
        value_of_digits(s.drop_last()) * 10 + digit_value(s.last())
    }
}

/// `decimal(n)` is the base-10 numeral of `n`: it is made of digits, reads
/// back as `n`, and has no leading zero.
pub proof fn lemma_decimal_is_numeral(n: nat)
    ensures
        decimal(n).len() >= 1,
        forall|i: int| 0 <= i < decimal(n).len() ==> is_digit(#[trigger] decimal(n)[i]),
        value_of_digits(decimal(n)) == n,
        decimal(n).len() > 1 ==> decimal(n)[0] != '0',
        n > 0 ==> decimal(n)[0] != '0',
    decreases n,
{
    if n < 10 {
        assert(decimal(n) =~= seq![digit_char(n)]);
        assert(decimal(n).drop_last() =~= Seq::<char>::empty());
        assert(value_of_digits(Seq::<char>::empty()) == 0);
        assert(digit_value(digit_char(n)) == n);
    } else {
        let q = n / 10;
        let r = n % 10;
        lemma_decimal_is_numeral(q);
        let d = decimal(n);
        assert(d =~= decimal(q) + seq![digit_char(r)]);
        assert(d.drop_last() =~= decimal(q));
        assert(d.last() == digit_char(r));
        assert(digit_value(digit_char(r)) == r);
        assert(value_of_digits(d) == value_of_digits(decimal(q)) * 10 + digit_value(d.last()));
        assert(q * 10 + r == n) by (nonlinear_arith)
            requires q == n / 10, r == n % 10;
        assert(q > 0) by (nonlinear_arith)
            requires q == n / 10, n >= 10;
        assert forall|i: int| 0 <= i < d.len() implies is_digit(#[trigger] d[i]) by {
            if i < decimal(q).len() {
                assert(d[i] == decimal(q)[i]);
            }
        }
        assert(d[0] == decimal(q)[0]);
    }
}

/// `signed_decimal(n)` is what `Display` prints for an integer: a `-` for
/// a negative number, then the base-10 numeral of its magnitude.
pub proof fn lemma_signed_decimal_is_numeral(n: int)
    ensures
        n >= 0 ==> signed_decimal(n) == decimal(n as nat) && value_of_digits(signed_decimal(n)) == n,
        n < 0 ==> signed_decimal(n)[0] == '-' && signed_decimal(n).drop_first() == decimal((-n) as nat)
            && value_of_digits(signed_decimal(n).drop_first()) == -n,
        forall|i: int| (if n < 0 { 1int } else { 0int }) <= i < signed_decimal(n).len() ==> is_digit(#[trigger] signed_decimal(n)[i]),
{
    if n < 0 {
        lemma_decimal_is_numeral((-n) as nat);
        assert(signed_decimal(n).drop_first() =~= decimal((-n) as nat));
        assert forall|i: int| 1 <= i < signed_decimal(n).len() implies is_digit(#[trigger] signed_decimal(n)[i]) by {
            assert(signed_decimal(n)[i] == decimal((-n) as nat)[i - 1]);
        }
    } else {
        lemma_decimal_is_numeral(n as nat);
    }
}

/// The one-character string of a decimal digit.
fn digit_str(d: u32) -> (s: &'static str)
    requires
        d < 10,
    ensures
        s@ == seq![digit_char(d as nat)],
{
    if d == 0 { proof { reveal_strlit("0"); } "0" }
    else if d == 1 { proof { reveal_strlit("1"); } "1" }
    else if d == 2 { proof { reveal_strlit("2"); } "2" }
    else if d == 3 { proof { reveal_strlit("3"); } "3" }
    else if d == 4 { proof { reveal_strlit("4"); } "4" }
    else if d == 5 { proof { reveal_strlit("5"); } "5" }
    else if d == 6 { proof { reveal_strlit("6"); } "6" }
    else if d == 7 { proof { reveal_strlit("7"); } "7" }
    else if d == 8 { proof { reveal_strlit("8"); } "8" }
    else { proof { reveal_strlit("9"); } "9" }
}

/// Renders a natural number in decimal.
pub fn render_decimal(n: u32) -> (s: String)
    ensures
        s@ == decimal(n as nat),
        forall|i: int| 0 <= i < s@.len() ==> is_digit(#[trigger] s@[i]),
        value_of_digits(s@) == n as int,
    decreases n,
{
    proof {
        lemma_decimal_is_numeral(n as nat);
    }
    if n < 10 {
        digit_str(n).to_owned()
    } else {
        let mut s = render_decimal(n / 10);
        s.append(digit_str(n % 10));
        s
    }
}

/// Renders an `i32` in decimal, the way `Display` does.
pub fn render_signed_decimal(n: i32) -> (s: String)
    ensures
        s@ == signed_decimal(n as int),
{
    if n < 0 {
        let magnitude: u32 = (0i64 - (n as i64)) as u32;
        let digits = render_decimal(magnitude);
        let mut s = "-".to_owned();
        proof {
            reveal_strlit("-");
        }
        s.append(digits.as_str());
        s
    } else {
        render_decimal(n as u32)
    }
}

/// The greeting that `/{name}` answers with.
pub fn greeting(name: &str) -> (s: String)
    ensures
        s@ == "Hello "@ + name@ + "!"@,
{
    let mut s = "Hello ".to_owned();
    s.append(name);
    s.append("!");
    s
}

/// The front page's text, given the page-hit count after this visit.
pub fn page_hits_message(hits: i32) -> (s: String)
    ensures
        s@ == "Hello, World! Page hits: "@ + signed_decimal(hits as int),
{
    let mut s = "Hello, World! Page hits: ".to_owned();
    let count = render_signed_decimal(hits);
    s.append(count.as_str());
    s
}

} // verus!
