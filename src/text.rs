//! Character sequences: decimal numerals, joined lists, and the string
//! builders that produce them.
use vstd::prelude::*;

verus! {

/// The decimal digit for `d`, which is below ten.
pub open spec fn digit_char(d: nat) -> char {
    if d == 0 {
        '0'
    } else if d == 1 {
        '1'
    } else if d == 2 {
        '2'
    } else if d == 3 {
        '3'
    } else if d == 4 {
        '4'
    } else if d == 5 {
        '5'
    } else if d == 6 {
        '6'
    } else if d == 7 {
        '7'
    } else if d == 8 {
        '8'
    } else {
        '9'
    }
}

/// The decimal numeral of `n`: most significant digit first, no leading zero.
pub open spec fn nat_text(n: nat) -> Seq<char>
    decreases n,
{
    if n < 10 {
        seq![digit_char(n)]
    } else {
        nat_text(n / 10).push(digit_char(n % 10))
    }
}

/// The decimal numeral of `i`, with a leading `-` when it is negative.
pub open spec fn int_text(i: int) -> Seq<char> {
    if i < 0 {
        seq!['-'] + nat_text((-i) as nat)
    } else {
        nat_text(i as nat)
    }
}

/// The items one after the other, `sep` between two neighbours and nowhere else.
pub open spec fn join(items: Seq<Seq<char>>, sep: Seq<char>) -> Seq<char>
    decreases items.len(),
{
    if items.len() == 0 {
        Seq::empty()
    } else if items.len() == 1 {
        items[0]
    } else {
        join(items.drop_last(), sep) + sep + items.last()
    }
}

/// The items one after the other, each followed by `term`.
pub open spec fn terminated(items: Seq<Seq<char>>, term: Seq<char>) -> Seq<char>
    decreases items.len(),
{
    if items.len() == 0 {
        Seq::empty()
    } else {
        terminated(items.drop_last(), term) + items.last() + term
    }
}

/// The character sequences that the strings hold.
pub open spec fn views(v: Seq<String>) -> Seq<Seq<char>> {
    v.map_values(|s: String| s@)
}

/// `s` followed by a space, or nothing when `s` is empty.
pub open spec fn spaced(s: Seq<char>) -> Seq<char> {
    if s.len() == 0 {
        s
    } else {
        s + " "@
    }
}

/// Relies on `String::push`: the character is added at the end.
#[verifier::external_body]
pub(crate) fn push_char(s: &mut String, c: char)
    ensures
        final(s)@ == old(s)@.push(c),
{
    s.push(c);
}

/// A one-character string holding the decimal digit `d`.
fn digit_str(d: u8) -> (r: &'static str)
    requires
        d < 10,
    ensures
        r@ == seq![digit_char(d as nat)],
{
    if d == 0 {
        proof { reveal_strlit("0"); }
        "0"
    } else if d == 1 {
        proof { reveal_strlit("1"); }
        "1"
    } else if d == 2 {
        proof { reveal_strlit("2"); }
        "2"
    } else if d == 3 {
        proof { reveal_strlit("3"); }
        "3"
    } else if d == 4 {
        proof { reveal_strlit("4"); }
        "4"
    } else if d == 5 {
        proof { reveal_strlit("5"); }
        "5"
    } else if d == 6 {
        proof { reveal_strlit("6"); }
        "6"
    } else if d == 7 {
        proof { reveal_strlit("7"); }
        "7"
    } else if d == 8 {
        proof { reveal_strlit("8"); }
        "8"
    } else {
        proof { reveal_strlit("9"); }
        "9"
    }
}

/// Appends the decimal numeral of `n` to `s`.
pub fn append_nat(s: &mut String, n: u128)
    ensures
        final(s)@ == old(s)@ + nat_text(n as nat),
    decreases n,
{
    if n < 10 {
        s.append(digit_str(n as u8));
    } else {
        append_nat(s, n / 10);
        s.append(digit_str((n % 10) as u8));
        assert(nat_text(n as nat) == nat_text((n / 10) as nat).push(digit_char((n % 10) as nat)));
        assert(final(s)@ =~= old(s)@ + nat_text(n as nat));
    }
}

/// Appends the decimal numeral of `i`, sign included, to `s`.
pub fn append_int(s: &mut String, i: i128)
    ensures
        final(s)@ == old(s)@ + int_text(i as int),
{
    if i < 0 {
        let magnitude: u128 = if i == i128::MIN {
            (i128::MAX as u128) + 1
        } else {
            (-i) as u128
        };
        let ghost before = s@;
        proof { reveal_strlit("-"); }
        s.append("-");
        append_nat(s, magnitude);
        assert(s@ =~= before + int_text(i as int));
    } else {
        append_nat(s, i as u128);
    }
}

/// The strings joined by `sep`.
pub fn join_strings(items: &Vec<String>, sep: &str) -> (r: String)
    ensures
        r@ == join(views(items@), sep@),
{
    let mut r = String::new();
    let mut i: usize = 0;
    while i < items.len()
        invariant
            i <= items.len(),
            r@ == join(views(items@.subrange(0, i as int)), sep@),
        decreases items.len() - i,
    {
        let ghost prev = views(items@.subrange(0, i as int));
        let ghost next = views(items@.subrange(0, i + 1));
        assert(next.drop_last() =~= prev);
        if i > 0 {
            r.append(sep);
        }
        r.append(items[i].as_str());
        assert(next.last() == items@[i as int]@);
        assert(r@ =~= join(next, sep@));
        i = i + 1;
    }
    assert(items@.subrange(0, items.len() as int) =~= items@);
    r
}

/// The strings, each followed by `term`.
pub fn terminate_strings(items: &Vec<String>, term: &str) -> (r: String)
    ensures
        r@ == terminated(views(items@), term@),
{
    let mut r = String::new();
    let mut i: usize = 0;
    while i < items.len()
        invariant
            i <= items.len(),
            r@ == terminated(views(items@.subrange(0, i as int)), term@),
        decreases items.len() - i,
    {
        let ghost prev = views(items@.subrange(0, i as int));
        let ghost next = views(items@.subrange(0, i + 1));
        assert(next.drop_last() =~= prev);
        r.append(items[i].as_str());
        r.append(term);
        assert(next.last() == items@[i as int]@);
        assert(r@ =~= terminated(next, term@));
        i = i + 1;
    }
    assert(items@.subrange(0, items.len() as int) =~= items@);
    r
}

/// Appends `s` and a space to `out`, or nothing when `s` is empty.
pub fn append_spaced(out: &mut String, s: &str)
    ensures
        final(out)@ == old(out)@ + spaced(s@),
{
    if !s.is_empty() {
        let ghost before = out@;
        out.append(s);
        out.append(" ");
        assert(out@ =~= before + spaced(s@));
    } else {
        assert(old(out)@ + spaced(s@) =~= old(out)@);
    }
}


/// The value of a decimal digit character; zero for any other character.
pub open spec fn digit_value(c: char) -> nat {
    if c == '1' {
        1
    } else if c == '2' {
        2
    } else if c == '3' {
        3
    } else if c == '4' {
        4
    } else if c == '5' {
        5
    } else if c == '6' {
        6
    } else if c == '7' {
        7
    } else if c == '8' {
        8
    } else if c == '9' {
        9
    } else {
        0
    }
}

/// The number that a decimal numeral denotes, read most significant digit
/// first.
pub open spec fn numeral_value(s: Seq<char>) -> nat
    decreases s.len(),
{
    if s.len() == 0 {
        0
    } else {
        numeral_value(s.drop_last()) * 10 + digit_value(s.last())
    }
}

/// Reading the numeral of `n` gives `n` back.
pub proof fn lemma_numeral_round_trip(n: nat)
    ensures
        numeral_value(nat_text(n)) == n,
    decreases n,
{
    let s = nat_text(n);
    if n < 10 {
        assert(s.drop_last() =~= Seq::<char>::empty());
        assert(numeral_value(s) == numeral_value(Seq::<char>::empty()) * 10 + digit_value(
            digit_char(n),
        ));
    } else {
        lemma_numeral_round_trip(n / 10);
        assert(s.drop_last() =~= nat_text(n / 10));
        assert(s.last() == digit_char(n % 10));
        assert(digit_value(digit_char(n % 10)) == n % 10);
        assert(n == (n / 10) * 10 + n % 10) by (nonlinear_arith);
    }
}

/// A non-empty list of terminated items ends with the terminator.
pub proof fn lemma_terminated_ends_with(items: Seq<Seq<char>>, term: Seq<char>)
    requires
        items.len() > 0,
    ensures
        ({
            let t = terminated(items, term);
            t.len() >= term.len() && t.subrange(t.len() - term.len(), t.len() as int) == term
        }),
{
    let t = terminated(items, term);
    assert(t.subrange(t.len() - term.len(), t.len() as int) =~= term);
}

} // verus!
