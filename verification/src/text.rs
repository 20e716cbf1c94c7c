//! Building command text: joining words, decimal numbers.

use vstd::prelude::*;

verus! {

/// `parts` joined with `sep` between consecutive parts.
pub open spec fn join_spec(parts: Seq<Seq<char>>, sep: Seq<char>) -> Seq<char>
    decreases parts.len(),
{
    if parts.len() == 0 {
        Seq::empty()
    } else if parts.len() == 1 {
        parts[0]
    } else {
        join_spec(parts.drop_last(), sep) + sep + parts.last()
    }
}

/// The character of a decimal digit.
pub open spec fn digit_char(d: nat) -> char {
    if d == 0 { '0' }
    else if d == 1 { '1' }
    else if d == 2 { '2' }
    else if d == 3 { '3' }
    else if d == 4 { '4' }
    else if d == 5 { '5' }
    else if d == 6 { '6' }
    else if d == 7 { '7' }
    else if d == 8 { '8' }
    else { '9' }
}

/// Decimal notation of a natural number, without leading zeros.
pub open spec fn decimal_nat(n: nat) -> Seq<char>
    decreases n,
{
    if n < 10 {
        seq![digit_char(n)]
    } else {
        decimal_nat(n / 10) + seq![digit_char(n % 10)]
    }
}

/// Decimal notation of an integer, with a leading `-` when negative.
pub open spec fn decimal_int(n: int) -> Seq<char> {
    if n < 0 {
        seq!['-'] + decimal_nat((-n) as nat)
    } else {
        decimal_nat(n as nat)
    }
}

/// `a` followed by `b`, as a new string.
pub fn cat(a: &str, b: &str) -> (res: String)
    ensures
        res@ == a@ + b@,
{
    let mut s = a.to_owned();
    s.append(b);
    s
}

/// `a`, `b` and `c` one after the other, as a new string.
pub fn cat3(a: &str, b: &str, c: &str) -> (res: String)
    ensures
        res@ == a@ + b@ + c@,
{
    let mut s = a.to_owned();
    s.append(b);
    s.append(c);
    s
}

/// The parts joined with `sep` between consecutive parts.
pub fn join(parts: &Vec<String>, sep: &str) -> (res: String)
    ensures
        res@ == join_spec(parts.deep_view(), sep@),
{
    let ghost dv = parts.deep_view();
    let mut res = String::new();
    let n = parts.len();
    let mut i: usize = 0;
    while i < n
        invariant
            n == parts.len(),
            dv == parts.deep_view(),
            i <= n,
            res@ == join_spec(dv.take(i as int), sep@),
        decreases n - i,
    {
        assert(dv.take(i + 1).drop_last() =~= dv.take(i as int));
        assert(dv.take(i + 1).last() == parts[i as int]@);
        if i != 0 {
            res.append(sep);
        } else {
            assert(dv.take(1) =~= seq![parts[0]@]);
            assert(res@ =~= Seq::<char>::empty());
        }
        res.append(parts[i].as_str());
        i = i + 1;
    }
    assert(dv.take(n as int) =~= dv);
    res
}

/// The one-character text of a decimal digit.
fn digit_str(d: u64) -> (s: &'static str)
    requires
        d < 10,
    ensures
        s@ == seq![digit_char(d as nat)],
{
    proof {
        reveal_strlit("0");
        reveal_strlit("1");
        reveal_strlit("2");
        reveal_strlit("3");
        reveal_strlit("4");
        reveal_strlit("5");
        reveal_strlit("6");
        reveal_strlit("7");
        reveal_strlit("8");
        reveal_strlit("9");
    }
    if d == 0 { "0" }
    else if d == 1 { "1" }
    else if d == 2 { "2" }
    else if d == 3 { "3" }
    else if d == 4 { "4" }
    else if d == 5 { "5" }
    else if d == 6 { "6" }
    else if d == 7 { "7" }
    else if d == 8 { "8" }
    else { "9" }
}

/// Decimal notation of a natural number.
pub fn decimal_u64(n: u64) -> (res: String)
    ensures
        res@ == decimal_nat(n as nat),
{
    let mut m: u64 = n;
    let mut s = String::new();
    while m >= 10
        invariant
            decimal_nat(n as nat) == decimal_nat(m as nat) + s@,
        decreases m,
    {
        let d = digit_str(m % 10);
        let ghost old_s = s@;
        s = cat(d, s.as_str());
        assert(decimal_nat(m as nat) == decimal_nat((m / 10) as nat) + seq![digit_char((m % 10) as nat)]);
        assert(decimal_nat(m as nat) + old_s =~= decimal_nat((m / 10) as nat) + s@);
        m = m / 10;
    }
    let d = digit_str(m);
    let ghost old_s = s@;
    s = cat(d, s.as_str());
    assert(decimal_nat(m as nat) + old_s =~= s@);
    s
}

/// Decimal notation of a 32-bit integer, as `Display` writes it.
pub fn decimal_i32(n: i32) -> (res: String)
    ensures
        res@ == decimal_int(n as int),
{
    if n < 0 {
        let magnitude: u64 = (-(n as i64)) as u64;
        let digits = decimal_u64(magnitude);
        let minus: &str = "-";
        proof { reveal_strlit("-"); }
        cat(minus, digits.as_str())
    } else {
        decimal_u64(n as u64)
    }
}

} // verus!
