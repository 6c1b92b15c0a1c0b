//! Numbers, booleans, characters and strings.
use vstd::prelude::*;
use crate::protocol::{CompileConst, CompileConstArray};
use crate::text::{
    append_int, append_nat, int_text, lemma_numeral_round_trip, nat_text, numeral_value, push_char,
    terminated,
};

verus! {

/// The literal of an integer: its numeral followed by its type's suffix.
pub open spec fn suffixed_text(n: int, suffix: Seq<char>) -> Seq<char> {
    int_text(n) + suffix
}

/// The numeral of `n` followed by `suffix`.
fn signed_numeral(n: i128, suffix: &str) -> (r: String)
    ensures
        r@ == suffixed_text(n as int, suffix@),
{
    let mut r = String::new();
    append_int(&mut r, n);
    r.append(suffix);
    assert(r@ =~= suffixed_text(n as int, suffix@));
    r
}

/// The numeral of `n` followed by `suffix`.
fn unsigned_numeral(n: u128, suffix: &str) -> (r: String)
    ensures
        r@ == suffixed_text(n as int, suffix@),
{
    let mut r = String::new();
    append_nat(&mut r, n);
    r.append(suffix);
    assert(r@ =~= suffixed_text(n as int, suffix@));
    r
}

impl CompileConst for u8 {
    open spec fn type_text() -> Seq<char> {
        "u8"@
    }

    open spec fn val_text(&self) -> Seq<char> {
        suffixed_text(*self as int, "u8"@)
    }

    open spec fn definition_text(attrs: Seq<char>, vis: Seq<char>) -> Seq<char> {
        Seq::empty()
    }

    fn const_type() -> (r: String) {
        String::from_str("u8")
    }

    fn const_val(&self) -> (r: String) {
        unsigned_numeral(*self as u128, "u8")
    }

    fn const_definition(_attrs: &str, _vis: &str) -> (r: String) {
        String::new()
    }
}

impl CompileConst for u16 {
    open spec fn type_text() -> Seq<char> {
        "u16"@
    }

    open spec fn val_text(&self) -> Seq<char> {
        suffixed_text(*self as int, "u16"@)
    }

    open spec fn definition_text(attrs: Seq<char>, vis: Seq<char>) -> Seq<char> {
        Seq::empty()
    }

    fn const_type() -> (r: String) {
        String::from_str("u16")
    }

    fn const_val(&self) -> (r: String) {
        unsigned_numeral(*self as u128, "u16")
    }

    fn const_definition(_attrs: &str, _vis: &str) -> (r: String) {
        String::new()
    }
}

impl CompileConst for u32 {
    open spec fn type_text() -> Seq<char> {
        "u32"@
    }

    open spec fn val_text(&self) -> Seq<char> {
        suffixed_text(*self as int, "u32"@)
    }

    open spec fn definition_text(attrs: Seq<char>, vis: Seq<char>) -> Seq<char> {
        Seq::empty()
    }

    fn const_type() -> (r: String) {
        String::from_str("u32")
    }

    fn const_val(&self) -> (r: String) {
        unsigned_numeral(*self as u128, "u32")
    }

    fn const_definition(_attrs: &str, _vis: &str) -> (r: String) {
        String::new()
    }
}

impl CompileConst for u64 {
    open spec fn type_text() -> Seq<char> {
        "u64"@
    }

    open spec fn val_text(&self) -> Seq<char> {
        suffixed_text(*self as int, "u64"@)
    }

    open spec fn definition_text(attrs: Seq<char>, vis: Seq<char>) -> Seq<char> {
        Seq::empty()
    }

    fn const_type() -> (r: String) {
        String::from_str("u64")
    }

    fn const_val(&self) -> (r: String) {
        unsigned_numeral(*self as u128, "u64")
    }

    fn const_definition(_attrs: &str, _vis: &str) -> (r: String) {
        String::new()
    }
}

impl CompileConst for u128 {
    open spec fn type_text() -> Seq<char> {
        "u128"@
    }

    open spec fn val_text(&self) -> Seq<char> {
        suffixed_text(*self as int, "u128"@)
    }

    open spec fn definition_text(attrs: Seq<char>, vis: Seq<char>) -> Seq<char> {
        Seq::empty()
    }

    fn const_type() -> (r: String) {
        String::from_str("u128")
    }

    fn const_val(&self) -> (r: String) {
        unsigned_numeral(*self as u128, "u128")
    }

    fn const_definition(_attrs: &str, _vis: &str) -> (r: String) {
        String::new()
    }
}

impl CompileConst for usize {
    open spec fn type_text() -> Seq<char> {
        "usize"@
    }

    open spec fn val_text(&self) -> Seq<char> {
        suffixed_text(*self as int, "usize"@)
    }

    open spec fn definition_text(attrs: Seq<char>, vis: Seq<char>) -> Seq<char> {
        Seq::empty()
    }

    fn const_type() -> (r: String) {
        String::from_str("usize")
    }

    fn const_val(&self) -> (r: String) {
        unsigned_numeral(*self as u128, "usize")
    }

    fn const_definition(_attrs: &str, _vis: &str) -> (r: String) {
        String::new()
    }
}

impl CompileConst for i8 {
    open spec fn type_text() -> Seq<char> {
        "i8"@
    }

    open spec fn val_text(&self) -> Seq<char> {
        suffixed_text(*self as int, "i8"@)
    }

    open spec fn definition_text(attrs: Seq<char>, vis: Seq<char>) -> Seq<char> {
        Seq::empty()
    }

    fn const_type() -> (r: String) {
        String::from_str("i8")
    }

    fn const_val(&self) -> (r: String) {
        signed_numeral(*self as i128, "i8")
    }

    fn const_definition(_attrs: &str, _vis: &str) -> (r: String) {
        String::new()
    }
}

impl CompileConst for i16 {
    open spec fn type_text() -> Seq<char> {
        "i16"@
    }

    open spec fn val_text(&self) -> Seq<char> {
        suffixed_text(*self as int, "i16"@)
    }

    open spec fn definition_text(attrs: Seq<char>, vis: Seq<char>) -> Seq<char> {
        Seq::empty()
    }

    fn const_type() -> (r: String) {
        String::from_str("i16")
    }

    fn const_val(&self) -> (r: String) {
        signed_numeral(*self as i128, "i16")
    }

    fn const_definition(_attrs: &str, _vis: &str) -> (r: String) {
        String::new()
    }
}

impl CompileConst for i32 {
    open spec fn type_text() -> Seq<char> {
        "i32"@
    }

    open spec fn val_text(&self) -> Seq<char> {
        suffixed_text(*self as int, "i32"@)
    }

    open spec fn definition_text(attrs: Seq<char>, vis: Seq<char>) -> Seq<char> {
        Seq::empty()
    }

    fn const_type() -> (r: String) {
        String::from_str("i32")
    }

    fn const_val(&self) -> (r: String) {
        signed_numeral(*self as i128, "i32")
    }

    fn const_definition(_attrs: &str, _vis: &str) -> (r: String) {
        String::new()
    }
}

impl CompileConst for i64 {
    open spec fn type_text() -> Seq<char> {
        "i64"@
    }

    open spec fn val_text(&self) -> Seq<char> {
        suffixed_text(*self as int, "i64"@)
    }

    open spec fn definition_text(attrs: Seq<char>, vis: Seq<char>) -> Seq<char> {
        Seq::empty()
    }

    fn const_type() -> (r: String) {
        String::from_str("i64")
    }

    fn const_val(&self) -> (r: String) {
        signed_numeral(*self as i128, "i64")
    }

    fn const_definition(_attrs: &str, _vis: &str) -> (r: String) {
        String::new()
    }
}

impl CompileConst for i128 {
    open spec fn type_text() -> Seq<char> {
        "i128"@
    }

    open spec fn val_text(&self) -> Seq<char> {
        suffixed_text(*self as int, "i128"@)
    }

    open spec fn definition_text(attrs: Seq<char>, vis: Seq<char>) -> Seq<char> {
        Seq::empty()
    }

    fn const_type() -> (r: String) {
        String::from_str("i128")
    }

    fn const_val(&self) -> (r: String) {
        signed_numeral(*self as i128, "i128")
    }

    fn const_definition(_attrs: &str, _vis: &str) -> (r: String) {
        String::new()
    }
}

impl CompileConst for isize {
    open spec fn type_text() -> Seq<char> {
        "isize"@
    }

    open spec fn val_text(&self) -> Seq<char> {
        suffixed_text(*self as int, "isize"@)
    }

    open spec fn definition_text(attrs: Seq<char>, vis: Seq<char>) -> Seq<char> {
        Seq::empty()
    }

    fn const_type() -> (r: String) {
        String::from_str("isize")
    }

    fn const_val(&self) -> (r: String) {
        signed_numeral(*self as i128, "isize")
    }

    fn const_definition(_attrs: &str, _vis: &str) -> (r: String) {
        String::new()
    }
}

impl CompileConst for bool {
    open spec fn type_text() -> Seq<char> {
        "bool"@
    }

    open spec fn val_text(&self) -> Seq<char> {
        if *self {
            "true"@
        } else {
            "false"@
        }
    }

    open spec fn definition_text(attrs: Seq<char>, vis: Seq<char>) -> Seq<char> {
        Seq::empty()
    }

    fn const_type() -> (r: String) {
        String::from_str("bool")
    }

    fn const_val(&self) -> (r: String) {
        if *self {
            String::from_str("true")
        } else {
            String::from_str("false")
        }
    }

    fn const_definition(_attrs: &str, _vis: &str) -> (r: String) {
        String::new()
    }
}

/// A character between single quotes.
pub open spec fn char_text(c: char) -> Seq<char> {
    "'"@ + seq![c] + "'"@
}

/// Appends the character, between single quotes, to `out`.
fn append_quoted_char(out: &mut String, c: char)
    ensures
        final(out)@ == old(out)@ + char_text(c),
{
    let ghost before = out@;
    out.append("'");
    push_char(out, c);
    out.append("'");
    assert(out@ =~= before + char_text(c));
}

impl CompileConst for char {
    open spec fn type_text() -> Seq<char> {
        "char"@
    }

    open spec fn val_text(&self) -> Seq<char> {
        char_text(*self)
    }

    open spec fn definition_text(attrs: Seq<char>, vis: Seq<char>) -> Seq<char> {
        Seq::empty()
    }

    fn const_type() -> (r: String) {
        String::from_str("char")
    }

    fn const_val(&self) -> (r: String) {
        let mut r = String::new();
        append_quoted_char(&mut r, *self);
        assert(r@ =~= char_text(*self));
        r
    }

    fn const_definition(_attrs: &str, _vis: &str) -> (r: String) {
        String::new()
    }
}

/// The type of a string constant.
pub open spec fn str_type_text() -> Seq<char> {
    "&'static str"@
}

/// The content between double quotes, written as it is: a quote or a
/// backslash inside is not escaped.
pub open spec fn str_text(s: Seq<char>) -> Seq<char> {
    "\""@ + s + "\""@
}

/// The array type of a string's characters: `[char; {count}]`.
pub open spec fn char_array_type_text(s: Seq<char>) -> Seq<char> {
    "[char; "@ + nat_text(s.len()) + "]"@
}

/// The array literal of a string's characters: each quoted and followed by
/// a comma, all between brackets.
pub open spec fn char_array_text(s: Seq<char>) -> Seq<char> {
    "["@ + terminated(s.map_values(|c: char| char_text(c)), ","@) + "]"@
}

/// The content of `s` between double quotes.
fn quote_str(s: &str) -> (r: String)
    ensures
        r@ == str_text(s@),
{
    let mut r = String::from_str("\"");
    r.append(s);
    r.append("\"");
    assert(r@ =~= str_text(s@));
    r
}

/// The array type of the characters of `s`.
fn char_array_type(s: &str) -> (r: String)
    ensures
        r@ == char_array_type_text(s@),
{
    let mut r = String::from_str("[char; ");
    append_nat(&mut r, s.unicode_len() as u128);
    r.append("]");
    assert(r@ =~= char_array_type_text(s@));
    r
}

/// The array literal of the characters of `s`.
fn char_array(s: &str) -> (r: String)
    ensures
        r@ == char_array_text(s@),
{
    broadcast use vstd::string::axiom_spec_iter;

    let ghost items = s@.map_values(|c: char| char_text(c));
    let mut r = String::from_str("[");
    for c in it: s.chars()
        invariant
            it.seq() == s@,
            items == s@.map_values(|c: char| char_text(c)),
            r@ == "["@ + terminated(items.subrange(0, it.index() as int), ","@),
    {
        let ghost i = it.index();
        append_quoted_char(&mut r, c);
        r.append(",");
        assert(items.subrange(0, i + 1).drop_last() =~= items.subrange(0, i as int));
        assert(r@ =~= "["@ + terminated(items.subrange(0, i + 1), ","@));
    }
    assert(items.subrange(0, s@.len() as int) =~= items);
    r.append("]");
    assert(r@ =~= char_array_text(s@));
    r
}

impl CompileConst for String {
    open spec fn type_text() -> Seq<char> {
        str_type_text()
    }

    open spec fn val_text(&self) -> Seq<char> {
        str_text(self@)
    }

    open spec fn definition_text(attrs: Seq<char>, vis: Seq<char>) -> Seq<char> {
        Seq::empty()
    }

    fn const_type() -> (r: String) {
        String::from_str("&'static str")
    }

    fn const_val(&self) -> (r: String) {
        quote_str(self.as_str())
    }

    fn const_definition(_attrs: &str, _vis: &str) -> (r: String) {
        String::new()
    }
}

impl CompileConstArray for String {
    open spec fn array_type_text(&self) -> Seq<char> {
        char_array_type_text(self@)
    }

    open spec fn array_val_text(&self) -> Seq<char> {
        char_array_text(self@)
    }

    fn const_array_type(&self) -> (r: String) {
        char_array_type(self.as_str())
    }

    fn const_array_val(&self) -> (r: String) {
        char_array(self.as_str())
    }
}

impl CompileConst for &str {
    open spec fn type_text() -> Seq<char> {
        str_type_text()
    }

    open spec fn val_text(&self) -> Seq<char> {
        str_text((*self)@)
    }

    open spec fn definition_text(attrs: Seq<char>, vis: Seq<char>) -> Seq<char> {
        Seq::empty()
    }

    fn const_type() -> (r: String) {
        String::from_str("&'static str")
    }

    fn const_val(&self) -> (r: String) {
        quote_str(*self)
    }

    fn const_definition(_attrs: &str, _vis: &str) -> (r: String) {
        String::new()
    }
}

impl CompileConstArray for &str {
    open spec fn array_type_text(&self) -> Seq<char> {
        char_array_type_text((*self)@)
    }

    open spec fn array_val_text(&self) -> Seq<char> {
        char_array_text((*self)@)
    }

    fn const_array_type(&self) -> (r: String) {
        char_array_type(*self)
    }

    fn const_array_val(&self) -> (r: String) {
        char_array(*self)
    }
}

impl CompileConst for str {
    open spec fn type_text() -> Seq<char> {
        str_type_text()
    }

    open spec fn val_text(&self) -> Seq<char> {
        str_text(self@)
    }

    open spec fn definition_text(attrs: Seq<char>, vis: Seq<char>) -> Seq<char> {
        Seq::empty()
    }

    fn const_type() -> (r: String) {
        String::from_str("&'static str")
    }

    fn const_val(&self) -> (r: String) {
        quote_str(self)
    }

    fn const_definition(_attrs: &str, _vis: &str) -> (r: String) {
        String::new()
    }
}

impl CompileConstArray for str {
    open spec fn array_type_text(&self) -> Seq<char> {
        char_array_type_text(self@)
    }

    open spec fn array_val_text(&self) -> Seq<char> {
        char_array_text(self@)
    }

    fn const_array_type(&self) -> (r: String) {
        char_array_type(self)
    }

    fn const_array_val(&self) -> (r: String) {
        char_array(self)
    }
}

/// An integer literal reads back as its value: it ends with the type
/// suffix, and before the suffix stand a `-` when the value is negative and
/// then the digits of the value's magnitude.
pub proof fn lemma_integer_literal_round_trip(i: int, suffix: Seq<char>)
    ensures
        ({
            let t = suffixed_text(i, suffix);
            let body = t.subrange(0, t.len() - suffix.len());
            &&& t.subrange(t.len() - suffix.len(), t.len() as int) == suffix
            &&& i >= 0 ==> numeral_value(body) == i
            &&& i < 0 ==> body[0] == '-' && numeral_value(body.drop_first()) == -i
        }),
{
    let t = suffixed_text(i, suffix);
    let body = t.subrange(0, t.len() - suffix.len());
    assert(body =~= int_text(i));
    assert(t.subrange(t.len() - suffix.len(), t.len() as int) =~= suffix);
    if i >= 0 {
        lemma_numeral_round_trip(i as nat);
    } else {
        assert(body.drop_first() =~= nat_text((-i) as nat));
        lemma_numeral_round_trip((-i) as nat);
    }
}

/// A string literal reads back as its content: what stands between the
/// opening and the closing quote is the string itself.
pub proof fn lemma_string_literal_round_trip(s: Seq<char>)
    ensures
        ({
            let t = str_text(s);
            &&& t.len() == s.len() + 2
            &&& t[0] == '"' && t[t.len() - 1] == '"'
            &&& t.subrange(1, t.len() - 1) == s
        }),
{
    reveal_strlit("\"");
    let t = str_text(s);
    assert(t.subrange(1, t.len() - 1) =~= s);
}

/// A character literal reads back as its character, between two quotes.
pub proof fn lemma_char_literal_round_trip(c: char)
    ensures
        char_text(c) == seq!['\'', c, '\''],
{
    reveal_strlit("'");
    assert(char_text(c) =~= seq!['\'', c, '\'']);
}

} // verus!
