//! Sequences, fixed-size arrays, optional values and the wrappers that
//! pass their content through unchanged.
use vstd::prelude::*;
use crate::protocol::{CompileConst, CompileConstArray};
use crate::text::{append_nat, join, join_strings, nat_text, views};
use std::borrow::Cow;
use std::rc::Rc;
use std::sync::Arc;

verus! {

/// The literals of the elements, in order.
pub open spec fn vals_text<T: CompileConst>(s: Seq<T>) -> Seq<Seq<char>> {
    s.map_values(|e: T| e.val_text())
}

/// The type of a sequence constant: a static slice of the element type.
pub open spec fn slice_type_text(elem: Seq<char>) -> Seq<char> {
    "&'static ["@ + elem + "]"@
}

/// The literal of a sequence constant: a reference to the bracketed,
/// comma-separated element literals.
pub open spec fn slice_text(items: Seq<Seq<char>>) -> Seq<char> {
    "&["@ + join(items, ","@) + "]"@
}

/// The type of a fixed-size array: `[{elem}; {len}]`.
pub open spec fn array_type_text(elem: Seq<char>, len: nat) -> Seq<char> {
    "["@ + elem + "; "@ + nat_text(len) + "]"@
}

/// The literal of a fixed-size array: the comma-separated element literals
/// between brackets.
pub open spec fn array_text(items: Seq<Seq<char>>) -> Seq<char> {
    "["@ + join(items, ","@) + "]"@
}

/// The literal of each element, in order.
pub fn render_all<T: CompileConst>(s: &[T]) -> (r: Vec<String>)
    ensures
        views(r@) == vals_text(s@),
{
    let mut r: Vec<String> = Vec::new();
    let mut i: usize = 0;
    while i < s.len()
        invariant
            i <= s@.len(),
            views(r@) == vals_text(s@.subrange(0, i as int)),
        decreases s@.len() - i,
    {
        let v = s[i].const_val();
        let ghost prev = r@;
        r.push(v);
        assert(r@ == prev.push(v));
        assert(views(r@) =~= views(prev).push(v@));
        assert(vals_text(s@.subrange(0, i + 1)) =~= vals_text(s@.subrange(0, i as int)).push(
            s@[i as int].val_text(),
        ));
        i = i + 1;
    }
    assert(s@.subrange(0, s@.len() as int) =~= s@);
    r
}

/// The sequence literal of the elements.
fn slice_val<T: CompileConst>(s: &[T]) -> (r: String)
    ensures
        r@ == slice_text(vals_text(s@)),
{
    let items = render_all(s);
    let mut r = String::from_str("&[");
    let inner = join_strings(&items, ",");
    r.append(inner.as_str());
    r.append("]");
    assert(r@ =~= slice_text(vals_text(s@)));
    r
}

/// The array literal of the elements.
fn array_val<T: CompileConst>(s: &[T]) -> (r: String)
    ensures
        r@ == array_text(vals_text(s@)),
{
    let items = render_all(s);
    let mut r = String::from_str("[");
    let inner = join_strings(&items, ",");
    r.append(inner.as_str());
    r.append("]");
    assert(r@ =~= array_text(vals_text(s@)));
    r
}

/// The sequence type over the element type.
fn slice_type<T: CompileConst>() -> (r: String)
    ensures
        r@ == slice_type_text(T::type_text()),
{
    let mut r = String::from_str("&'static [");
    let elem = T::const_type();
    r.append(elem.as_str());
    r.append("]");
    assert(r@ =~= slice_type_text(T::type_text()));
    r
}

/// The array type over the element type, of length `len`.
fn array_type<T: CompileConst>(len: usize) -> (r: String)
    ensures
        r@ == array_type_text(T::type_text(), len as nat),
{
    let mut r = String::from_str("[");
    let elem = T::const_type();
    r.append(elem.as_str());
    r.append("; ");
    append_nat(&mut r, len as u128);
    r.append("]");
    assert(r@ =~= array_type_text(T::type_text(), len as nat));
    r
}

impl<T: CompileConst> CompileConst for Vec<T> {
    open spec fn type_text() -> Seq<char> {
        slice_type_text(T::type_text())
    }

    open spec fn val_text(&self) -> Seq<char> {
        slice_text(vals_text(self@))
    }

    open spec fn definition_text(attrs: Seq<char>, vis: Seq<char>) -> Seq<char> {
        Seq::empty()
    }

    fn const_type() -> (r: String) {
        slice_type::<T>()
    }

    fn const_val(&self) -> (r: String) {
        slice_val(self.as_slice())
    }

    fn const_definition(_attrs: &str, _vis: &str) -> (r: String) {
        String::new()
    }
}

impl<T: CompileConst> CompileConstArray for Vec<T> {
    open spec fn array_type_text(&self) -> Seq<char> {
        array_type_text(T::type_text(), self@.len())
    }

    open spec fn array_val_text(&self) -> Seq<char> {
        array_text(vals_text(self@))
    }

    fn const_array_type(&self) -> (r: String) {
        array_type::<T>(self.as_slice().len())
    }

    fn const_array_val(&self) -> (r: String) {
        array_val(self.as_slice())
    }
}

impl<'a, T: CompileConst> CompileConst for &'a [T] {
    open spec fn type_text() -> Seq<char> {
        slice_type_text(T::type_text())
    }

    open spec fn val_text(&self) -> Seq<char> {
        slice_text(vals_text((*self)@))
    }

    open spec fn definition_text(attrs: Seq<char>, vis: Seq<char>) -> Seq<char> {
        Seq::empty()
    }

    fn const_type() -> (r: String) {
        slice_type::<T>()
    }

    fn const_val(&self) -> (r: String) {
        slice_val(*self)
    }

    fn const_definition(_attrs: &str, _vis: &str) -> (r: String) {
        String::new()
    }
}

impl<'a, T: CompileConst> CompileConstArray for &'a [T] {
    open spec fn array_type_text(&self) -> Seq<char> {
        array_type_text(T::type_text(), (*self)@.len())
    }

    open spec fn array_val_text(&self) -> Seq<char> {
        array_text(vals_text((*self)@))
    }

    fn const_array_type(&self) -> (r: String) {
        array_type::<T>((*self).len())
    }

    fn const_array_val(&self) -> (r: String) {
        array_val(*self)
    }
}

impl<T: CompileConst, const N: usize> CompileConst for [T; N] {
    open spec fn type_text() -> Seq<char> {
        array_type_text(T::type_text(), N as nat)
    }

    open spec fn val_text(&self) -> Seq<char> {
        array_text(vals_text(self@))
    }

    open spec fn definition_text(attrs: Seq<char>, vis: Seq<char>) -> Seq<char> {
        Seq::empty()
    }

    fn const_type() -> (r: String) {
        array_type::<T>(N)
    }

    fn const_val(&self) -> (r: String) {
        array_val(self.as_slice())
    }

    fn const_definition(_attrs: &str, _vis: &str) -> (r: String) {
        String::new()
    }
}

/// The type of an optional constant.
pub open spec fn option_type_text(inner: Seq<char>) -> Seq<char> {
    "Option<"@ + inner + ">"@
}

/// The literal of an optional value: `None`, or `Some(..)` around the
/// literal of the value held.
pub open spec fn option_text(inner: Option<Seq<char>>) -> Seq<char> {
    match inner {
        Some(v) => "Some("@ + v + ")"@,
        None => "None"@,
    }
}

impl<T: CompileConst> CompileConst for Option<T> {
    open spec fn type_text() -> Seq<char> {
        option_type_text(T::type_text())
    }

    open spec fn val_text(&self) -> Seq<char> {
        match self {
            Some(v) => option_text(Some(v.val_text())),
            None => option_text(None),
        }
    }

    open spec fn definition_text(attrs: Seq<char>, vis: Seq<char>) -> Seq<char> {
        Seq::empty()
    }

    fn const_type() -> (r: String) {
        let mut r = String::from_str("Option<");
        let inner = T::const_type();
        r.append(inner.as_str());
        r.append(">");
        assert(r@ =~= option_type_text(T::type_text()));
        r
    }

    fn const_val(&self) -> (r: String) {
        match self {
            Some(v) => {
                let mut r = String::from_str("Some(");
                let inner = v.const_val();
                r.append(inner.as_str());
                r.append(")");
                assert(r@ =~= option_text(Some(v.val_text())));
                r
            },
            None => String::from_str("None"),
        }
    }

    fn const_definition(_attrs: &str, _vis: &str) -> (r: String) {
        String::new()
    }
}

impl<T: CompileConst> CompileConst for Box<T> {
    open spec fn type_text() -> Seq<char> {
        T::type_text()
    }

    open spec fn val_text(&self) -> Seq<char> {
        (**self).val_text()
    }

    open spec fn definition_text(attrs: Seq<char>, vis: Seq<char>) -> Seq<char> {
        Seq::empty()
    }

    fn const_type() -> (r: String) {
        T::const_type()
    }

    fn const_val(&self) -> (r: String) {
        (**self).const_val()
    }

    fn const_definition(_attrs: &str, _vis: &str) -> (r: String) {
        String::new()
    }
}

impl<T: CompileConstArray> CompileConstArray for Box<T> {
    open spec fn array_type_text(&self) -> Seq<char> {
        (**self).array_type_text()
    }

    open spec fn array_val_text(&self) -> Seq<char> {
        (**self).array_val_text()
    }

    fn const_array_type(&self) -> (r: String) {
        (**self).const_array_type()
    }

    fn const_array_val(&self) -> (r: String) {
        (**self).const_array_val()
    }
}

impl<T: CompileConst> CompileConst for Rc<T> {
    open spec fn type_text() -> Seq<char> {
        T::type_text()
    }

    open spec fn val_text(&self) -> Seq<char> {
        (**self).val_text()
    }

    open spec fn definition_text(attrs: Seq<char>, vis: Seq<char>) -> Seq<char> {
        Seq::empty()
    }

    fn const_type() -> (r: String) {
        T::const_type()
    }

    fn const_val(&self) -> (r: String) {
        (**self).const_val()
    }

    fn const_definition(_attrs: &str, _vis: &str) -> (r: String) {
        String::new()
    }
}

impl<T: CompileConstArray> CompileConstArray for Rc<T> {
    open spec fn array_type_text(&self) -> Seq<char> {
        (**self).array_type_text()
    }

    open spec fn array_val_text(&self) -> Seq<char> {
        (**self).array_val_text()
    }

    fn const_array_type(&self) -> (r: String) {
        (**self).const_array_type()
    }

    fn const_array_val(&self) -> (r: String) {
        (**self).const_array_val()
    }
}

impl<T: CompileConst> CompileConst for Arc<T> {
    open spec fn type_text() -> Seq<char> {
        T::type_text()
    }

    open spec fn val_text(&self) -> Seq<char> {
        (**self).val_text()
    }

    open spec fn definition_text(attrs: Seq<char>, vis: Seq<char>) -> Seq<char> {
        Seq::empty()
    }

    fn const_type() -> (r: String) {
        T::const_type()
    }

    fn const_val(&self) -> (r: String) {
        (**self).const_val()
    }

    fn const_definition(_attrs: &str, _vis: &str) -> (r: String) {
        String::new()
    }
}

impl<T: CompileConstArray> CompileConstArray for Arc<T> {
    open spec fn array_type_text(&self) -> Seq<char> {
        (**self).array_type_text()
    }

    open spec fn array_val_text(&self) -> Seq<char> {
        (**self).array_val_text()
    }

    fn const_array_type(&self) -> (r: String) {
        (**self).const_array_type()
    }

    fn const_array_val(&self) -> (r: String) {
        (**self).const_array_val()
    }
}

impl<'a, T: CompileConst + Clone> CompileConst for Cow<'a, T> {
    open spec fn type_text() -> Seq<char> {
        T::type_text()
    }

    open spec fn val_text(&self) -> Seq<char> {
        match self {
            Cow::Borrowed(b) => b.val_text(),
            Cow::Owned(o) => o.val_text(),
        }
    }

    open spec fn definition_text(attrs: Seq<char>, vis: Seq<char>) -> Seq<char> {
        Seq::empty()
    }

    fn const_type() -> (r: String) {
        T::const_type()
    }

    fn const_val(&self) -> (r: String) {
        match self {
            Cow::Borrowed(b) => b.const_val(),
            Cow::Owned(o) => o.const_val(),
        }
    }

    fn const_definition(_attrs: &str, _vis: &str) -> (r: String) {
        String::new()
    }
}

impl<'a, T: CompileConstArray + Clone> CompileConstArray for Cow<'a, T> {
    open spec fn array_type_text(&self) -> Seq<char> {
        match self {
            Cow::Borrowed(b) => b.array_type_text(),
            Cow::Owned(o) => o.array_type_text(),
        }
    }

    open spec fn array_val_text(&self) -> Seq<char> {
        match self {
            Cow::Borrowed(b) => b.array_val_text(),
            Cow::Owned(o) => o.array_val_text(),
        }
    }

    fn const_array_type(&self) -> (r: String) {
        match self {
            Cow::Borrowed(b) => b.const_array_type(),
            Cow::Owned(o) => o.const_array_type(),
        }
    }

    fn const_array_val(&self) -> (r: String) {
        match self {
            Cow::Borrowed(b) => b.const_array_val(),
            Cow::Owned(o) => o.const_array_val(),
        }
    }
}

/// An absent value is written `None`; a present one `Some(..)` around the
/// literal of the value it holds.
pub proof fn lemma_option_literals<T: CompileConst>(o: Option<T>)
    ensures
        o is None ==> o.val_text() == "None"@,
        o matches Some(x) ==> o.val_text() == "Some("@ + x.val_text() + ")"@,
{
}

} // verus!
