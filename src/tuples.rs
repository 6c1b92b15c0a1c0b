//! Tuples of up to sixteen elements.
use vstd::prelude::*;
use crate::protocol::{CompileConst, CompileConstArray};
use crate::text::{join, join_strings, views};

verus! {

/// The parts, comma-separated, between parentheses.
pub open spec fn tuple_text(parts: Seq<Seq<char>>) -> Seq<char> {
    "("@ + join(parts, ","@) + ")"@
}

/// The parts, comma-separated, between parentheses.
pub fn tuple_of(parts: &Vec<String>) -> (r: String)
    ensures
        r@ == tuple_text(views(parts@)),
{
    let mut r = String::from_str("(");
    let inner = join_strings(parts, ",");
    r.append(inner.as_str());
    r.append(")");
    assert(r@ =~= tuple_text(views(parts@)));
    r
}

impl CompileConst for () {
    open spec fn type_text() -> Seq<char> {
        tuple_text(Seq::empty())
    }

    open spec fn val_text(&self) -> Seq<char> {
        tuple_text(Seq::empty())
    }

    open spec fn definition_text(attrs: Seq<char>, vis: Seq<char>) -> Seq<char> {
        Seq::empty()
    }

    fn const_type() -> (r: String) {
        let parts: Vec<String> = Vec::new();
        assert(views(parts@) =~= Seq::empty());
        tuple_of(&parts)
    }

    fn const_val(&self) -> (r: String) {
        let parts: Vec<String> = Vec::new();
        assert(views(parts@) =~= Seq::empty());
        tuple_of(&parts)
    }

    fn const_definition(_attrs: &str, _vis: &str) -> (r: String) {
        String::new()
    }
}

impl CompileConstArray for () {
    open spec fn array_type_text(&self) -> Seq<char> {
        tuple_text(Seq::empty())
    }

    open spec fn array_val_text(&self) -> Seq<char> {
        tuple_text(Seq::empty())
    }

    fn const_array_type(&self) -> (r: String) {
        let parts: Vec<String> = Vec::new();
        assert(views(parts@) =~= Seq::empty());
        tuple_of(&parts)
    }

    fn const_array_val(&self) -> (r: String) {
        let parts: Vec<String> = Vec::new();
        assert(views(parts@) =~= Seq::empty());
        tuple_of(&parts)
    }
}

impl<A: CompileConst, B: CompileConst> CompileConst for (A, B) {
    open spec fn type_text() -> Seq<char> {
        tuple_text(seq![A::type_text(), B::type_text()])
    }

    open spec fn val_text(&self) -> Seq<char> {
        tuple_text(seq![self.0.val_text(), self.1.val_text()])
    }

    open spec fn definition_text(attrs: Seq<char>, vis: Seq<char>) -> Seq<char> {
        Seq::empty()
    }

    fn const_type() -> (r: String) {
        let parts: Vec<String> = vec![A::const_type(), B::const_type()];
        assert(views(parts@) =~= seq![A::type_text(), B::type_text()]);
        tuple_of(&parts)
    }

    fn const_val(&self) -> (r: String) {
        let parts: Vec<String> = vec![self.0.const_val(), self.1.const_val()];
        assert(views(parts@) =~= seq![self.0.val_text(), self.1.val_text()]);
        tuple_of(&parts)
    }

    fn const_definition(_attrs: &str, _vis: &str) -> (r: String) {
        String::new()
    }
}

impl<A: CompileConstArray, B: CompileConstArray> CompileConstArray for (A, B) {
    open spec fn array_type_text(&self) -> Seq<char> {
        tuple_text(seq![self.0.array_type_text(), self.1.array_type_text()])
    }

    open spec fn array_val_text(&self) -> Seq<char> {
        tuple_text(seq![self.0.array_val_text(), self.1.array_val_text()])
    }

    fn const_array_type(&self) -> (r: String) {
        let parts: Vec<String> = vec![self.0.const_array_type(), self.1.const_array_type()];
        assert(views(parts@) =~= seq![self.0.array_type_text(), self.1.array_type_text()]);
        tuple_of(&parts)
    }

    fn const_array_val(&self) -> (r: String) {
        let parts: Vec<String> = vec![self.0.const_array_val(), self.1.const_array_val()];
        assert(views(parts@) =~= seq![self.0.array_val_text(), self.1.array_val_text()]);
        tuple_of(&parts)
    }
}

impl<A: CompileConst, B: CompileConst, C: CompileConst> CompileConst for (A, B, C) {
    open spec fn type_text() -> Seq<char> {
        tuple_text(seq![A::type_text(), B::type_text(), C::type_text()])
    }

    open spec fn val_text(&self) -> Seq<char> {
        tuple_text(seq![self.0.val_text(), self.1.val_text(), self.2.val_text()])
    }

    open spec fn definition_text(attrs: Seq<char>, vis: Seq<char>) -> Seq<char> {
        Seq::empty()
    }

    fn const_type() -> (r: String) {
        let parts: Vec<String> = vec![A::const_type(), B::const_type(), C::const_type()];
        assert(views(parts@) =~= seq![A::type_text(), B::type_text(), C::type_text()]);
        tuple_of(&parts)
    }

    fn const_val(&self) -> (r: String) {
        let parts: Vec<String> = vec![self.0.const_val(), self.1.const_val(), self.2.const_val()];
        assert(views(parts@) =~= seq![self.0.val_text(), self.1.val_text(), self.2.val_text()]);
        tuple_of(&parts)
    }

    fn const_definition(_attrs: &str, _vis: &str) -> (r: String) {
        String::new()
    }
}

impl<A: CompileConstArray, B: CompileConstArray, C: CompileConstArray> CompileConstArray for (A, B, C) {
    open spec fn array_type_text(&self) -> Seq<char> {
        tuple_text(seq![self.0.array_type_text(), self.1.array_type_text(), self.2.array_type_text()])
    }

    open spec fn array_val_text(&self) -> Seq<char> {
        tuple_text(seq![self.0.array_val_text(), self.1.array_val_text(), self.2.array_val_text()])
    }

    fn const_array_type(&self) -> (r: String) {
        let parts: Vec<String> = vec![self.0.const_array_type(), self.1.const_array_type(), self.2.const_array_type()];
        assert(views(parts@) =~= seq![self.0.array_type_text(), self.1.array_type_text(), self.2.array_type_text()]);
        tuple_of(&parts)
    }

    fn const_array_val(&self) -> (r: String) {
        let parts: Vec<String> = vec![self.0.const_array_val(), self.1.const_array_val(), self.2.const_array_val()];
        assert(views(parts@) =~= seq![self.0.array_val_text(), self.1.array_val_text(), self.2.array_val_text()]);
        tuple_of(&parts)
    }
}

impl<A: CompileConst, B: CompileConst, C: CompileConst, D: CompileConst> CompileConst for (A, B, C, D) {
    open spec fn type_text() -> Seq<char> {
        tuple_text(seq![A::type_text(), B::type_text(), C::type_text(), D::type_text()])
    }

    open spec fn val_text(&self) -> Seq<char> {
        tuple_text(seq![self.0.val_text(), self.1.val_text(), self.2.val_text(), self.3.val_text()])
    }

    open spec fn definition_text(attrs: Seq<char>, vis: Seq<char>) -> Seq<char> {
        Seq::empty()
    }

    fn const_type() -> (r: String) {
        let parts: Vec<String> = vec![A::const_type(), B::const_type(), C::const_type(), D::const_type()];
        assert(views(parts@) =~= seq![A::type_text(), B::type_text(), C::type_text(), D::type_text()]);
        tuple_of(&parts)
    }

    fn const_val(&self) -> (r: String) {
        let parts: Vec<String> = vec![self.0.const_val(), self.1.const_val(), self.2.const_val(), self.3.const_val()];
        assert(views(parts@) =~= seq![self.0.val_text(), self.1.val_text(), self.2.val_text(), self.3.val_text()]);
        tuple_of(&parts)
    }

    fn const_definition(_attrs: &str, _vis: &str) -> (r: String) {
        String::new()
    }
}

impl<A: CompileConstArray, B: CompileConstArray, C: CompileConstArray, D: CompileConstArray> CompileConstArray for (A, B, C, D) {
    open spec fn array_type_text(&self) -> Seq<char> {
        tuple_text(seq![self.0.array_type_text(), self.1.array_type_text(), self.2.array_type_text(), self.3.array_type_text()])
    }

    open spec fn array_val_text(&self) -> Seq<char> {
        tuple_text(seq![self.0.array_val_text(), self.1.array_val_text(), self.2.array_val_text(), self.3.array_val_text()])
    }

    fn const_array_type(&self) -> (r: String) {
        let parts: Vec<String> = vec![self.0.const_array_type(), self.1.const_array_type(), self.2.const_array_type(), self.3.const_array_type()];
        assert(views(parts@) =~= seq![self.0.array_type_text(), self.1.array_type_text(), self.2.array_type_text(), self.3.array_type_text()]);
        tuple_of(&parts)
    }

    fn const_array_val(&self) -> (r: String) {
        let parts: Vec<String> = vec![self.0.const_array_val(), self.1.const_array_val(), self.2.const_array_val(), self.3.const_array_val()];
        assert(views(parts@) =~= seq![self.0.array_val_text(), self.1.array_val_text(), self.2.array_val_text(), self.3.array_val_text()]);
        tuple_of(&parts)
    }
}

impl<A: CompileConst, B: CompileConst, C: CompileConst, D: CompileConst, E: CompileConst> CompileConst for (A, B, C, D, E) {
    open spec fn type_text() -> Seq<char> {
        tuple_text(seq![A::type_text(), B::type_text(), C::type_text(), D::type_text(), E::type_text()])
    }

    open spec fn val_text(&self) -> Seq<char> {
        tuple_text(seq![self.0.val_text(), self.1.val_text(), self.2.val_text(), self.3.val_text(), self.4.val_text()])
    }

    open spec fn definition_text(attrs: Seq<char>, vis: Seq<char>) -> Seq<char> {
        Seq::empty()
    }

    fn const_type() -> (r: String) {
        let parts: Vec<String> = vec![A::const_type(), B::const_type(), C::const_type(), D::const_type(), E::const_type()];
        assert(views(parts@) =~= seq![A::type_text(), B::type_text(), C::type_text(), D::type_text(), E::type_text()]);
        tuple_of(&parts)
    }

    fn const_val(&self) -> (r: String) {
        let parts: Vec<String> = vec![self.0.const_val(), self.1.const_val(), self.2.const_val(), self.3.const_val(), self.4.const_val()];
        assert(views(parts@) =~= seq![self.0.val_text(), self.1.val_text(), self.2.val_text(), self.3.val_text(), self.4.val_text()]);
        tuple_of(&parts)
    }

    fn const_definition(_attrs: &str, _vis: &str) -> (r: String) {
        String::new()
    }
}

impl<A: CompileConstArray, B: CompileConstArray, C: CompileConstArray, D: CompileConstArray, E: CompileConstArray> CompileConstArray for (A, B, C, D, E) {
    open spec fn array_type_text(&self) -> Seq<char> {
        tuple_text(seq![self.0.array_type_text(), self.1.array_type_text(), self.2.array_type_text(), self.3.array_type_text(), self.4.array_type_text()])
    }

    open spec fn array_val_text(&self) -> Seq<char> {
        tuple_text(seq![self.0.array_val_text(), self.1.array_val_text(), self.2.array_val_text(), self.3.array_val_text(), self.4.array_val_text()])
    }

    fn const_array_type(&self) -> (r: String) {
        let parts: Vec<String> = vec![self.0.const_array_type(), self.1.const_array_type(), self.2.const_array_type(), self.3.const_array_type(), self.4.const_array_type()];
        assert(views(parts@) =~= seq![self.0.array_type_text(), self.1.array_type_text(), self.2.array_type_text(), self.3.array_type_text(), self.4.array_type_text()]);
        tuple_of(&parts)
    }

    fn const_array_val(&self) -> (r: String) {
        let parts: Vec<String> = vec![self.0.const_array_val(), self.1.const_array_val(), self.2.const_array_val(), self.3.const_array_val(), self.4.const_array_val()];
        assert(views(parts@) =~= seq![self.0.array_val_text(), self.1.array_val_text(), self.2.array_val_text(), self.3.array_val_text(), self.4.array_val_text()]);
        tuple_of(&parts)
    }
}

impl<A: CompileConst, B: CompileConst, C: CompileConst, D: CompileConst, E: CompileConst, F: CompileConst> CompileConst for (A, B, C, D, E, F) {
    open spec fn type_text() -> Seq<char> {
        tuple_text(seq![A::type_text(), B::type_text(), C::type_text(), D::type_text(), E::type_text(), F::type_text()])
    }

    open spec fn val_text(&self) -> Seq<char> {
        tuple_text(seq![self.0.val_text(), self.1.val_text(), self.2.val_text(), self.3.val_text(), self.4.val_text(), self.5.val_text()])
    }

    open spec fn definition_text(attrs: Seq<char>, vis: Seq<char>) -> Seq<char> {
        Seq::empty()
    }

    fn const_type() -> (r: String) {
        let parts: Vec<String> = vec![A::const_type(), B::const_type(), C::const_type(), D::const_type(), E::const_type(), F::const_type()];
        assert(views(parts@) =~= seq![A::type_text(), B::type_text(), C::type_text(), D::type_text(), E::type_text(), F::type_text()]);
        tuple_of(&parts)
    }

    fn const_val(&self) -> (r: String) {
        let parts: Vec<String> = vec![self.0.const_val(), self.1.const_val(), self.2.const_val(), self.3.const_val(), self.4.const_val(), self.5.const_val()];
        assert(views(parts@) =~= seq![self.0.val_text(), self.1.val_text(), self.2.val_text(), self.3.val_text(), self.4.val_text(), self.5.val_text()]);
        tuple_of(&parts)
    }

    fn const_definition(_attrs: &str, _vis: &str) -> (r: String) {
        String::new()
    }
}

impl<A: CompileConstArray, B: CompileConstArray, C: CompileConstArray, D: CompileConstArray, E: CompileConstArray, F: CompileConstArray> CompileConstArray for (A, B, C, D, E, F) {
    open spec fn array_type_text(&self) -> Seq<char> {
        tuple_text(seq![self.0.array_type_text(), self.1.array_type_text(), self.2.array_type_text(), self.3.array_type_text(), self.4.array_type_text(), self.5.array_type_text()])
    }

    open spec fn array_val_text(&self) -> Seq<char> {
        tuple_text(seq![self.0.array_val_text(), self.1.array_val_text(), self.2.array_val_text(), self.3.array_val_text(), self.4.array_val_text(), self.5.array_val_text()])
    }

    fn const_array_type(&self) -> (r: String) {
        let parts: Vec<String> = vec![self.0.const_array_type(), self.1.const_array_type(), self.2.const_array_type(), self.3.const_array_type(), self.4.const_array_type(), self.5.const_array_type()];
        assert(views(parts@) =~= seq![self.0.array_type_text(), self.1.array_type_text(), self.2.array_type_text(), self.3.array_type_text(), self.4.array_type_text(), self.5.array_type_text()]);
        tuple_of(&parts)
    }

    fn const_array_val(&self) -> (r: String) {
        let parts: Vec<String> = vec![self.0.const_array_val(), self.1.const_array_val(), self.2.const_array_val(), self.3.const_array_val(), self.4.const_array_val(), self.5.const_array_val()];
        assert(views(parts@) =~= seq![self.0.array_val_text(), self.1.array_val_text(), self.2.array_val_text(), self.3.array_val_text(), self.4.array_val_text(), self.5.array_val_text()]);
        tuple_of(&parts)
    }
}

impl<A: CompileConst, B: CompileConst, C: CompileConst, D: CompileConst, E: CompileConst, F: CompileConst, G: CompileConst> CompileConst for (A, B, C, D, E, F, G) {
    open spec fn type_text() -> Seq<char> {
        tuple_text(seq![A::type_text(), B::type_text(), C::type_text(), D::type_text(), E::type_text(), F::type_text(), G::type_text()])
    }

    open spec fn val_text(&self) -> Seq<char> {
        tuple_text(seq![self.0.val_text(), self.1.val_text(), self.2.val_text(), self.3.val_text(), self.4.val_text(), self.5.val_text(), self.6.val_text()])
    }

    open spec fn definition_text(attrs: Seq<char>, vis: Seq<char>) -> Seq<char> {
        Seq::empty()
    }

    fn const_type() -> (r: String) {
        let parts: Vec<String> = vec![A::const_type(), B::const_type(), C::const_type(), D::const_type(), E::const_type(), F::const_type(), G::const_type()];
        assert(views(parts@) =~= seq![A::type_text(), B::type_text(), C::type_text(), D::type_text(), E::type_text(), F::type_text(), G::type_text()]);
        tuple_of(&parts)
    }

    fn const_val(&self) -> (r: String) {
        let parts: Vec<String> = vec![self.0.const_val(), self.1.const_val(), self.2.const_val(), self.3.const_val(), self.4.const_val(), self.5.const_val(), self.6.const_val()];
        assert(views(parts@) =~= seq![self.0.val_text(), self.1.val_text(), self.2.val_text(), self.3.val_text(), self.4.val_text(), self.5.val_text(), self.6.val_text()]);
        tuple_of(&parts)
    }

    fn const_definition(_attrs: &str, _vis: &str) -> (r: String) {
        String::new()
    }
}

impl<A: CompileConstArray, B: CompileConstArray, C: CompileConstArray, D: CompileConstArray, E: CompileConstArray, F: CompileConstArray, G: CompileConstArray> CompileConstArray for (A, B, C, D, E, F, G) {
    open spec fn array_type_text(&self) -> Seq<char> {
        tuple_text(seq![self.0.array_type_text(), self.1.array_type_text(), self.2.array_type_text(), self.3.array_type_text(), self.4.array_type_text(), self.5.array_type_text(), self.6.array_type_text()])
    }

    open spec fn array_val_text(&self) -> Seq<char> {
        tuple_text(seq![self.0.array_val_text(), self.1.array_val_text(), self.2.array_val_text(), self.3.array_val_text(), self.4.array_val_text(), self.5.array_val_text(), self.6.array_val_text()])
    }

    fn const_array_type(&self) -> (r: String) {
        let parts: Vec<String> = vec![self.0.const_array_type(), self.1.const_array_type(), self.2.const_array_type(), self.3.const_array_type(), self.4.const_array_type(), self.5.const_array_type(), self.6.const_array_type()];
        assert(views(parts@) =~= seq![self.0.array_type_text(), self.1.array_type_text(), self.2.array_type_text(), self.3.array_type_text(), self.4.array_type_text(), self.5.array_type_text(), self.6.array_type_text()]);
        tuple_of(&parts)
    }

    fn const_array_val(&self) -> (r: String) {
        let parts: Vec<String> = vec![self.0.const_array_val(), self.1.const_array_val(), self.2.const_array_val(), self.3.const_array_val(), self.4.const_array_val(), self.5.const_array_val(), self.6.const_array_val()];
        assert(views(parts@) =~= seq![self.0.array_val_text(), self.1.array_val_text(), self.2.array_val_text(), self.3.array_val_text(), self.4.array_val_text(), self.5.array_val_text(), self.6.array_val_text()]);
        tuple_of(&parts)
    }
}

impl<A: CompileConst, B: CompileConst, C: CompileConst, D: CompileConst, E: CompileConst, F: CompileConst, G: CompileConst, H: CompileConst> CompileConst for (A, B, C, D, E, F, G, H) {
    open spec fn type_text() -> Seq<char> {
        tuple_text(seq![A::type_text(), B::type_text(), C::type_text(), D::type_text(), E::type_text(), F::type_text(), G::type_text(), H::type_text()])
    }

    open spec fn val_text(&self) -> Seq<char> {
        tuple_text(seq![self.0.val_text(), self.1.val_text(), self.2.val_text(), self.3.val_text(), self.4.val_text(), self.5.val_text(), self.6.val_text(), self.7.val_text()])
    }

    open spec fn definition_text(attrs: Seq<char>, vis: Seq<char>) -> Seq<char> {
        Seq::empty()
    }

    fn const_type() -> (r: String) {
        let parts: Vec<String> = vec![A::const_type(), B::const_type(), C::const_type(), D::const_type(), E::const_type(), F::const_type(), G::const_type(), H::const_type()];
        assert(views(parts@) =~= seq![A::type_text(), B::type_text(), C::type_text(), D::type_text(), E::type_text(), F::type_text(), G::type_text(), H::type_text()]);
        tuple_of(&parts)
    }

    fn const_val(&self) -> (r: String) {
        let parts: Vec<String> = vec![self.0.const_val(), self.1.const_val(), self.2.const_val(), self.3.const_val(), self.4.const_val(), self.5.const_val(), self.6.const_val(), self.7.const_val()];
        assert(views(parts@) =~= seq![self.0.val_text(), self.1.val_text(), self.2.val_text(), self.3.val_text(), self.4.val_text(), self.5.val_text(), self.6.val_text(), self.7.val_text()]);
        tuple_of(&parts)
    }

    fn const_definition(_attrs: &str, _vis: &str) -> (r: String) {
        String::new()
    }
}

impl<A: CompileConstArray, B: CompileConstArray, C: CompileConstArray, D: CompileConstArray, E: CompileConstArray, F: CompileConstArray, G: CompileConstArray, H: CompileConstArray> CompileConstArray for (A, B, C, D, E, F, G, H) {
    open spec fn array_type_text(&self) -> Seq<char> {
        tuple_text(seq![self.0.array_type_text(), self.1.array_type_text(), self.2.array_type_text(), self.3.array_type_text(), self.4.array_type_text(), self.5.array_type_text(), self.6.array_type_text(), self.7.array_type_text()])
    }

    open spec fn array_val_text(&self) -> Seq<char> {
        tuple_text(seq![self.0.array_val_text(), self.1.array_val_text(), self.2.array_val_text(), self.3.array_val_text(), self.4.array_val_text(), self.5.array_val_text(), self.6.array_val_text(), self.7.array_val_text()])
    }

    fn const_array_type(&self) -> (r: String) {
        let parts: Vec<String> = vec![self.0.const_array_type(), self.1.const_array_type(), self.2.const_array_type(), self.3.const_array_type(), self.4.const_array_type(), self.5.const_array_type(), self.6.const_array_type(), self.7.const_array_type()];
        assert(views(parts@) =~= seq![self.0.array_type_text(), self.1.array_type_text(), self.2.array_type_text(), self.3.array_type_text(), self.4.array_type_text(), self.5.array_type_text(), self.6.array_type_text(), self.7.array_type_text()]);
        tuple_of(&parts)
    }

    fn const_array_val(&self) -> (r: String) {
        let parts: Vec<String> = vec![self.0.const_array_val(), self.1.const_array_val(), self.2.const_array_val(), self.3.const_array_val(), self.4.const_array_val(), self.5.const_array_val(), self.6.const_array_val(), self.7.const_array_val()];
        assert(views(parts@) =~= seq![self.0.array_val_text(), self.1.array_val_text(), self.2.array_val_text(), self.3.array_val_text(), self.4.array_val_text(), self.5.array_val_text(), self.6.array_val_text(), self.7.array_val_text()]);
        tuple_of(&parts)
    }
}

impl<A: CompileConst, B: CompileConst, C: CompileConst, D: CompileConst, E: CompileConst, F: CompileConst, G: CompileConst, H: CompileConst, I: CompileConst> CompileConst for (A, B, C, D, E, F, G, H, I) {
    open spec fn type_text() -> Seq<char> {
        tuple_text(seq![A::type_text(), B::type_text(), C::type_text(), D::type_text(), E::type_text(), F::type_text(), G::type_text(), H::type_text(), I::type_text()])
    }

    open spec fn val_text(&self) -> Seq<char> {
        tuple_text(seq![self.0.val_text(), self.1.val_text(), self.2.val_text(), self.3.val_text(), self.4.val_text(), self.5.val_text(), self.6.val_text(), self.7.val_text(), self.8.val_text()])
    }

    open spec fn definition_text(attrs: Seq<char>, vis: Seq<char>) -> Seq<char> {
        Seq::empty()
    }

    fn const_type() -> (r: String) {
        let parts: Vec<String> = vec![A::const_type(), B::const_type(), C::const_type(), D::const_type(), E::const_type(), F::const_type(), G::const_type(), H::const_type(), I::const_type()];
        assert(views(parts@) =~= seq![A::type_text(), B::type_text(), C::type_text(), D::type_text(), E::type_text(), F::type_text(), G::type_text(), H::type_text(), I::type_text()]);
        tuple_of(&parts)
    }

    fn const_val(&self) -> (r: String) {
        let parts: Vec<String> = vec![self.0.const_val(), self.1.const_val(), self.2.const_val(), self.3.const_val(), self.4.const_val(), self.5.const_val(), self.6.const_val(), self.7.const_val(), self.8.const_val()];
        assert(views(parts@) =~= seq![self.0.val_text(), self.1.val_text(), self.2.val_text(), self.3.val_text(), self.4.val_text(), self.5.val_text(), self.6.val_text(), self.7.val_text(), self.8.val_text()]);
        tuple_of(&parts)
    }

    fn const_definition(_attrs: &str, _vis: &str) -> (r: String) {
        String::new()
    }
}

impl<A: CompileConstArray, B: CompileConstArray, C: CompileConstArray, D: CompileConstArray, E: CompileConstArray, F: CompileConstArray, G: CompileConstArray, H: CompileConstArray, I: CompileConstArray> CompileConstArray for (A, B, C, D, E, F, G, H, I) {
    open spec fn array_type_text(&self) -> Seq<char> {
        tuple_text(seq![self.0.array_type_text(), self.1.array_type_text(), self.2.array_type_text(), self.3.array_type_text(), self.4.array_type_text(), self.5.array_type_text(), self.6.array_type_text(), self.7.array_type_text(), self.8.array_type_text()])
    }

    open spec fn array_val_text(&self) -> Seq<char> {
        tuple_text(seq![self.0.array_val_text(), self.1.array_val_text(), self.2.array_val_text(), self.3.array_val_text(), self.4.array_val_text(), self.5.array_val_text(), self.6.array_val_text(), self.7.array_val_text(), self.8.array_val_text()])
    }

    fn const_array_type(&self) -> (r: String) {
        let parts: Vec<String> = vec![self.0.const_array_type(), self.1.const_array_type(), self.2.const_array_type(), self.3.const_array_type(), self.4.const_array_type(), self.5.const_array_type(), self.6.const_array_type(), self.7.const_array_type(), self.8.const_array_type()];
        assert(views(parts@) =~= seq![self.0.array_type_text(), self.1.array_type_text(), self.2.array_type_text(), self.3.array_type_text(), self.4.array_type_text(), self.5.array_type_text(), self.6.array_type_text(), self.7.array_type_text(), self.8.array_type_text()]);
        tuple_of(&parts)
    }

    fn const_array_val(&self) -> (r: String) {
        let parts: Vec<String> = vec![self.0.const_array_val(), self.1.const_array_val(), self.2.const_array_val(), self.3.const_array_val(), self.4.const_array_val(), self.5.const_array_val(), self.6.const_array_val(), self.7.const_array_val(), self.8.const_array_val()];
        assert(views(parts@) =~= seq![self.0.array_val_text(), self.1.array_val_text(), self.2.array_val_text(), self.3.array_val_text(), self.4.array_val_text(), self.5.array_val_text(), self.6.array_val_text(), self.7.array_val_text(), self.8.array_val_text()]);
        tuple_of(&parts)
    }
}

impl<A: CompileConst, B: CompileConst, C: CompileConst, D: CompileConst, E: CompileConst, F: CompileConst, G: CompileConst, H: CompileConst, I: CompileConst, J: CompileConst> CompileConst for (A, B, C, D, E, F, G, H, I, J) {
    open spec fn type_text() -> Seq<char> {
        tuple_text(seq![A::type_text(), B::type_text(), C::type_text(), D::type_text(), E::type_text(), F::type_text(), G::type_text(), H::type_text(), I::type_text(), J::type_text()])
    }

    open spec fn val_text(&self) -> Seq<char> {
        tuple_text(seq![self.0.val_text(), self.1.val_text(), self.2.val_text(), self.3.val_text(), self.4.val_text(), self.5.val_text(), self.6.val_text(), self.7.val_text(), self.8.val_text(), self.9.val_text()])
    }

    open spec fn definition_text(attrs: Seq<char>, vis: Seq<char>) -> Seq<char> {
        Seq::empty()
    }

    fn const_type() -> (r: String) {
        let parts: Vec<String> = vec![A::const_type(), B::const_type(), C::const_type(), D::const_type(), E::const_type(), F::const_type(), G::const_type(), H::const_type(), I::const_type(), J::const_type()];
        assert(views(parts@) =~= seq![A::type_text(), B::type_text(), C::type_text(), D::type_text(), E::type_text(), F::type_text(), G::type_text(), H::type_text(), I::type_text(), J::type_text()]);
        tuple_of(&parts)
    }

    fn const_val(&self) -> (r: String) {
        let parts: Vec<String> = vec![self.0.const_val(), self.1.const_val(), self.2.const_val(), self.3.const_val(), self.4.const_val(), self.5.const_val(), self.6.const_val(), self.7.const_val(), self.8.const_val(), self.9.const_val()];
        assert(views(parts@) =~= seq![self.0.val_text(), self.1.val_text(), self.2.val_text(), self.3.val_text(), self.4.val_text(), self.5.val_text(), self.6.val_text(), self.7.val_text(), self.8.val_text(), self.9.val_text()]);
        tuple_of(&parts)
    }

    fn const_definition(_attrs: &str, _vis: &str) -> (r: String) {
        String::new()
    }
}

impl<A: CompileConstArray, B: CompileConstArray, C: CompileConstArray, D: CompileConstArray, E: CompileConstArray, F: CompileConstArray, G: CompileConstArray, H: CompileConstArray, I: CompileConstArray, J: CompileConstArray> CompileConstArray for (A, B, C, D, E, F, G, H, I, J) {
    open spec fn array_type_text(&self) -> Seq<char> {
        tuple_text(seq![self.0.array_type_text(), self.1.array_type_text(), self.2.array_type_text(), self.3.array_type_text(), self.4.array_type_text(), self.5.array_type_text(), self.6.array_type_text(), self.7.array_type_text(), self.8.array_type_text(), self.9.array_type_text()])
    }

    open spec fn array_val_text(&self) -> Seq<char> {
        tuple_text(seq![self.0.array_val_text(), self.1.array_val_text(), self.2.array_val_text(), self.3.array_val_text(), self.4.array_val_text(), self.5.array_val_text(), self.6.array_val_text(), self.7.array_val_text(), self.8.array_val_text(), self.9.array_val_text()])
    }

    fn const_array_type(&self) -> (r: String) {
        let parts: Vec<String> = vec![self.0.const_array_type(), self.1.const_array_type(), self.2.const_array_type(), self.3.const_array_type(), self.4.const_array_type(), self.5.const_array_type(), self.6.const_array_type(), self.7.const_array_type(), self.8.const_array_type(), self.9.const_array_type()];
        assert(views(parts@) =~= seq![self.0.array_type_text(), self.1.array_type_text(), self.2.array_type_text(), self.3.array_type_text(), self.4.array_type_text(), self.5.array_type_text(), self.6.array_type_text(), self.7.array_type_text(), self.8.array_type_text(), self.9.array_type_text()]);
        tuple_of(&parts)
    }

    fn const_array_val(&self) -> (r: String) {
        let parts: Vec<String> = vec![self.0.const_array_val(), self.1.const_array_val(), self.2.const_array_val(), self.3.const_array_val(), self.4.const_array_val(), self.5.const_array_val(), self.6.const_array_val(), self.7.const_array_val(), self.8.const_array_val(), self.9.const_array_val()];
        assert(views(parts@) =~= seq![self.0.array_val_text(), self.1.array_val_text(), self.2.array_val_text(), self.3.array_val_text(), self.4.array_val_text(), self.5.array_val_text(), self.6.array_val_text(), self.7.array_val_text(), self.8.array_val_text(), self.9.array_val_text()]);
        tuple_of(&parts)
    }
}

impl<A: CompileConst, B: CompileConst, C: CompileConst, D: CompileConst, E: CompileConst, F: CompileConst, G: CompileConst, H: CompileConst, I: CompileConst, J: CompileConst, K: CompileConst> CompileConst for (A, B, C, D, E, F, G, H, I, J, K) {
    open spec fn type_text() -> Seq<char> {
        tuple_text(seq![A::type_text(), B::type_text(), C::type_text(), D::type_text(), E::type_text(), F::type_text(), G::type_text(), H::type_text(), I::type_text(), J::type_text(), K::type_text()])
    }

    open spec fn val_text(&self) -> Seq<char> {
        tuple_text(seq![self.0.val_text(), self.1.val_text(), self.2.val_text(), self.3.val_text(), self.4.val_text(), self.5.val_text(), self.6.val_text(), self.7.val_text(), self.8.val_text(), self.9.val_text(), self.10.val_text()])
    }

    open spec fn definition_text(attrs: Seq<char>, vis: Seq<char>) -> Seq<char> {
        Seq::empty()
    }

    fn const_type() -> (r: String) {
        let parts: Vec<String> = vec![A::const_type(), B::const_type(), C::const_type(), D::const_type(), E::const_type(), F::const_type(), G::const_type(), H::const_type(), I::const_type(), J::const_type(), K::const_type()];
        assert(views(parts@) =~= seq![A::type_text(), B::type_text(), C::type_text(), D::type_text(), E::type_text(), F::type_text(), G::type_text(), H::type_text(), I::type_text(), J::type_text(), K::type_text()]);
        tuple_of(&parts)
    }

    fn const_val(&self) -> (r: String) {
        let parts: Vec<String> = vec![self.0.const_val(), self.1.const_val(), self.2.const_val(), self.3.const_val(), self.4.const_val(), self.5.const_val(), self.6.const_val(), self.7.const_val(), self.8.const_val(), self.9.const_val(), self.10.const_val()];
        assert(views(parts@) =~= seq![self.0.val_text(), self.1.val_text(), self.2.val_text(), self.3.val_text(), self.4.val_text(), self.5.val_text(), self.6.val_text(), self.7.val_text(), self.8.val_text(), self.9.val_text(), self.10.val_text()]);
        tuple_of(&parts)
    }

    fn const_definition(_attrs: &str, _vis: &str) -> (r: String) {
        String::new()
    }
}

impl<A: CompileConstArray, B: CompileConstArray, C: CompileConstArray, D: CompileConstArray, E: CompileConstArray, F: CompileConstArray, G: CompileConstArray, H: CompileConstArray, I: CompileConstArray, J: CompileConstArray, K: CompileConstArray> CompileConstArray for (A, B, C, D, E, F, G, H, I, J, K) {
    open spec fn array_type_text(&self) -> Seq<char> {
        tuple_text(seq![self.0.array_type_text(), self.1.array_type_text(), self.2.array_type_text(), self.3.array_type_text(), self.4.array_type_text(), self.5.array_type_text(), self.6.array_type_text(), self.7.array_type_text(), self.8.array_type_text(), self.9.array_type_text(), self.10.array_type_text()])
    }

    open spec fn array_val_text(&self) -> Seq<char> {
        tuple_text(seq![self.0.array_val_text(), self.1.array_val_text(), self.2.array_val_text(), self.3.array_val_text(), self.4.array_val_text(), self.5.array_val_text(), self.6.array_val_text(), self.7.array_val_text(), self.8.array_val_text(), self.9.array_val_text(), self.10.array_val_text()])
    }

    fn const_array_type(&self) -> (r: String) {
        let parts: Vec<String> = vec![self.0.const_array_type(), self.1.const_array_type(), self.2.const_array_type(), self.3.const_array_type(), self.4.const_array_type(), self.5.const_array_type(), self.6.const_array_type(), self.7.const_array_type(), self.8.const_array_type(), self.9.const_array_type(), self.10.const_array_type()];
        assert(views(parts@) =~= seq![self.0.array_type_text(), self.1.array_type_text(), self.2.array_type_text(), self.3.array_type_text(), self.4.array_type_text(), self.5.array_type_text(), self.6.array_type_text(), self.7.array_type_text(), self.8.array_type_text(), self.9.array_type_text(), self.10.array_type_text()]);
        tuple_of(&parts)
    }

    fn const_array_val(&self) -> (r: String) {
        let parts: Vec<String> = vec![self.0.const_array_val(), self.1.const_array_val(), self.2.const_array_val(), self.3.const_array_val(), self.4.const_array_val(), self.5.const_array_val(), self.6.const_array_val(), self.7.const_array_val(), self.8.const_array_val(), self.9.const_array_val(), self.10.const_array_val()];
        assert(views(parts@) =~= seq![self.0.array_val_text(), self.1.array_val_text(), self.2.array_val_text(), self.3.array_val_text(), self.4.array_val_text(), self.5.array_val_text(), self.6.array_val_text(), self.7.array_val_text(), self.8.array_val_text(), self.9.array_val_text(), self.10.array_val_text()]);
        tuple_of(&parts)
    }
}

impl<A: CompileConst, B: CompileConst, C: CompileConst, D: CompileConst, E: CompileConst, F: CompileConst, G: CompileConst, H: CompileConst, I: CompileConst, J: CompileConst, K: CompileConst, L: CompileConst> CompileConst for (A, B, C, D, E, F, G, H, I, J, K, L) {
    open spec fn type_text() -> Seq<char> {
        tuple_text(seq![A::type_text(), B::type_text(), C::type_text(), D::type_text(), E::type_text(), F::type_text(), G::type_text(), H::type_text(), I::type_text(), J::type_text(), K::type_text(), L::type_text()])
    }

    open spec fn val_text(&self) -> Seq<char> {
        tuple_text(seq![self.0.val_text(), self.1.val_text(), self.2.val_text(), self.3.val_text(), self.4.val_text(), self.5.val_text(), self.6.val_text(), self.7.val_text(), self.8.val_text(), self.9.val_text(), self.10.val_text(), self.11.val_text()])
    }

    open spec fn definition_text(attrs: Seq<char>, vis: Seq<char>) -> Seq<char> {
        Seq::empty()
    }

    fn const_type() -> (r: String) {
        let parts: Vec<String> = vec![A::const_type(), B::const_type(), C::const_type(), D::const_type(), E::const_type(), F::const_type(), G::const_type(), H::const_type(), I::const_type(), J::const_type(), K::const_type(), L::const_type()];
        assert(views(parts@) =~= seq![A::type_text(), B::type_text(), C::type_text(), D::type_text(), E::type_text(), F::type_text(), G::type_text(), H::type_text(), I::type_text(), J::type_text(), K::type_text(), L::type_text()]);
        tuple_of(&parts)
    }

    fn const_val(&self) -> (r: String) {
        let parts: Vec<String> = vec![self.0.const_val(), self.1.const_val(), self.2.const_val(), self.3.const_val(), self.4.const_val(), self.5.const_val(), self.6.const_val(), self.7.const_val(), self.8.const_val(), self.9.const_val(), self.10.const_val(), self.11.const_val()];
        assert(views(parts@) =~= seq![self.0.val_text(), self.1.val_text(), self.2.val_text(), self.3.val_text(), self.4.val_text(), self.5.val_text(), self.6.val_text(), self.7.val_text(), self.8.val_text(), self.9.val_text(), self.10.val_text(), self.11.val_text()]);
        tuple_of(&parts)
    }

    fn const_definition(_attrs: &str, _vis: &str) -> (r: String) {
        String::new()
    }
}

impl<A: CompileConstArray, B: CompileConstArray, C: CompileConstArray, D: CompileConstArray, E: CompileConstArray, F: CompileConstArray, G: CompileConstArray, H: CompileConstArray, I: CompileConstArray, J: CompileConstArray, K: CompileConstArray, L: CompileConstArray> CompileConstArray for (A, B, C, D, E, F, G, H, I, J, K, L) {
    open spec fn array_type_text(&self) -> Seq<char> {
        tuple_text(seq![self.0.array_type_text(), self.1.array_type_text(), self.2.array_type_text(), self.3.array_type_text(), self.4.array_type_text(), self.5.array_type_text(), self.6.array_type_text(), self.7.array_type_text(), self.8.array_type_text(), self.9.array_type_text(), self.10.array_type_text(), self.11.array_type_text()])
    }

    open spec fn array_val_text(&self) -> Seq<char> {
        tuple_text(seq![self.0.array_val_text(), self.1.array_val_text(), self.2.array_val_text(), self.3.array_val_text(), self.4.array_val_text(), self.5.array_val_text(), self.6.array_val_text(), self.7.array_val_text(), self.8.array_val_text(), self.9.array_val_text(), self.10.array_val_text(), self.11.array_val_text()])
    }

    fn const_array_type(&self) -> (r: String) {
        let parts: Vec<String> = vec![self.0.const_array_type(), self.1.const_array_type(), self.2.const_array_type(), self.3.const_array_type(), self.4.const_array_type(), self.5.const_array_type(), self.6.const_array_type(), self.7.const_array_type(), self.8.const_array_type(), self.9.const_array_type(), self.10.const_array_type(), self.11.const_array_type()];
        assert(views(parts@) =~= seq![self.0.array_type_text(), self.1.array_type_text(), self.2.array_type_text(), self.3.array_type_text(), self.4.array_type_text(), self.5.array_type_text(), self.6.array_type_text(), self.7.array_type_text(), self.8.array_type_text(), self.9.array_type_text(), self.10.array_type_text(), self.11.array_type_text()]);
        tuple_of(&parts)
    }

    fn const_array_val(&self) -> (r: String) {
        let parts: Vec<String> = vec![self.0.const_array_val(), self.1.const_array_val(), self.2.const_array_val(), self.3.const_array_val(), self.4.const_array_val(), self.5.const_array_val(), self.6.const_array_val(), self.7.const_array_val(), self.8.const_array_val(), self.9.const_array_val(), self.10.const_array_val(), self.11.const_array_val()];
        assert(views(parts@) =~= seq![self.0.array_val_text(), self.1.array_val_text(), self.2.array_val_text(), self.3.array_val_text(), self.4.array_val_text(), self.5.array_val_text(), self.6.array_val_text(), self.7.array_val_text(), self.8.array_val_text(), self.9.array_val_text(), self.10.array_val_text(), self.11.array_val_text()]);
        tuple_of(&parts)
    }
}

impl<A: CompileConst, B: CompileConst, C: CompileConst, D: CompileConst, E: CompileConst, F: CompileConst, G: CompileConst, H: CompileConst, I: CompileConst, J: CompileConst, K: CompileConst, L: CompileConst, M: CompileConst> CompileConst for (A, B, C, D, E, F, G, H, I, J, K, L, M) {
    open spec fn type_text() -> Seq<char> {
        tuple_text(seq![A::type_text(), B::type_text(), C::type_text(), D::type_text(), E::type_text(), F::type_text(), G::type_text(), H::type_text(), I::type_text(), J::type_text(), K::type_text(), L::type_text(), M::type_text()])
    }

    open spec fn val_text(&self) -> Seq<char> {
        tuple_text(seq![self.0.val_text(), self.1.val_text(), self.2.val_text(), self.3.val_text(), self.4.val_text(), self.5.val_text(), self.6.val_text(), self.7.val_text(), self.8.val_text(), self.9.val_text(), self.10.val_text(), self.11.val_text(), self.12.val_text()])
    }

    open spec fn definition_text(attrs: Seq<char>, vis: Seq<char>) -> Seq<char> {
        Seq::empty()
    }

    fn const_type() -> (r: String) {
        let parts: Vec<String> = vec![A::const_type(), B::const_type(), C::const_type(), D::const_type(), E::const_type(), F::const_type(), G::const_type(), H::const_type(), I::const_type(), J::const_type(), K::const_type(), L::const_type(), M::const_type()];
        assert(views(parts@) =~= seq![A::type_text(), B::type_text(), C::type_text(), D::type_text(), E::type_text(), F::type_text(), G::type_text(), H::type_text(), I::type_text(), J::type_text(), K::type_text(), L::type_text(), M::type_text()]);
        tuple_of(&parts)
    }

    fn const_val(&self) -> (r: String) {
        let parts: Vec<String> = vec![self.0.const_val(), self.1.const_val(), self.2.const_val(), self.3.const_val(), self.4.const_val(), self.5.const_val(), self.6.const_val(), self.7.const_val(), self.8.const_val(), self.9.const_val(), self.10.const_val(), self.11.const_val(), self.12.const_val()];
        assert(views(parts@) =~= seq![self.0.val_text(), self.1.val_text(), self.2.val_text(), self.3.val_text(), self.4.val_text(), self.5.val_text(), self.6.val_text(), self.7.val_text(), self.8.val_text(), self.9.val_text(), self.10.val_text(), self.11.val_text(), self.12.val_text()]);
        tuple_of(&parts)
    }

    fn const_definition(_attrs: &str, _vis: &str) -> (r: String) {
        String::new()
    }
}

impl<A: CompileConstArray, B: CompileConstArray, C: CompileConstArray, D: CompileConstArray, E: CompileConstArray, F: CompileConstArray, G: CompileConstArray, H: CompileConstArray, I: CompileConstArray, J: CompileConstArray, K: CompileConstArray, L: CompileConstArray, M: CompileConstArray> CompileConstArray for (A, B, C, D, E, F, G, H, I, J, K, L, M) {
    open spec fn array_type_text(&self) -> Seq<char> {
        tuple_text(seq![self.0.array_type_text(), self.1.array_type_text(), self.2.array_type_text(), self.3.array_type_text(), self.4.array_type_text(), self.5.array_type_text(), self.6.array_type_text(), self.7.array_type_text(), self.8.array_type_text(), self.9.array_type_text(), self.10.array_type_text(), self.11.array_type_text(), self.12.array_type_text()])
    }

    open spec fn array_val_text(&self) -> Seq<char> {
        tuple_text(seq![self.0.array_val_text(), self.1.array_val_text(), self.2.array_val_text(), self.3.array_val_text(), self.4.array_val_text(), self.5.array_val_text(), self.6.array_val_text(), self.7.array_val_text(), self.8.array_val_text(), self.9.array_val_text(), self.10.array_val_text(), self.11.array_val_text(), self.12.array_val_text()])
    }

    fn const_array_type(&self) -> (r: String) {
        let parts: Vec<String> = vec![self.0.const_array_type(), self.1.const_array_type(), self.2.const_array_type(), self.3.const_array_type(), self.4.const_array_type(), self.5.const_array_type(), self.6.const_array_type(), self.7.const_array_type(), self.8.const_array_type(), self.9.const_array_type(), self.10.const_array_type(), self.11.const_array_type(), self.12.const_array_type()];
        assert(views(parts@) =~= seq![self.0.array_type_text(), self.1.array_type_text(), self.2.array_type_text(), self.3.array_type_text(), self.4.array_type_text(), self.5.array_type_text(), self.6.array_type_text(), self.7.array_type_text(), self.8.array_type_text(), self.9.array_type_text(), self.10.array_type_text(), self.11.array_type_text(), self.12.array_type_text()]);
        tuple_of(&parts)
    }

    fn const_array_val(&self) -> (r: String) {
        let parts: Vec<String> = vec![self.0.const_array_val(), self.1.const_array_val(), self.2.const_array_val(), self.3.const_array_val(), self.4.const_array_val(), self.5.const_array_val(), self.6.const_array_val(), self.7.const_array_val(), self.8.const_array_val(), self.9.const_array_val(), self.10.const_array_val(), self.11.const_array_val(), self.12.const_array_val()];
        assert(views(parts@) =~= seq![self.0.array_val_text(), self.1.array_val_text(), self.2.array_val_text(), self.3.array_val_text(), self.4.array_val_text(), self.5.array_val_text(), self.6.array_val_text(), self.7.array_val_text(), self.8.array_val_text(), self.9.array_val_text(), self.10.array_val_text(), self.11.array_val_text(), self.12.array_val_text()]);
        tuple_of(&parts)
    }
}

impl<A: CompileConst, B: CompileConst, C: CompileConst, D: CompileConst, E: CompileConst, F: CompileConst, G: CompileConst, H: CompileConst, I: CompileConst, J: CompileConst, K: CompileConst, L: CompileConst, M: CompileConst, N: CompileConst> CompileConst for (A, B, C, D, E, F, G, H, I, J, K, L, M, N) {
    open spec fn type_text() -> Seq<char> {
        tuple_text(seq![A::type_text(), B::type_text(), C::type_text(), D::type_text(), E::type_text(), F::type_text(), G::type_text(), H::type_text(), I::type_text(), J::type_text(), K::type_text(), L::type_text(), M::type_text(), N::type_text()])
    }

    open spec fn val_text(&self) -> Seq<char> {
        tuple_text(seq![self.0.val_text(), self.1.val_text(), self.2.val_text(), self.3.val_text(), self.4.val_text(), self.5.val_text(), self.6.val_text(), self.7.val_text(), self.8.val_text(), self.9.val_text(), self.10.val_text(), self.11.val_text(), self.12.val_text(), self.13.val_text()])
    }

    open spec fn definition_text(attrs: Seq<char>, vis: Seq<char>) -> Seq<char> {
        Seq::empty()
    }

    fn const_type() -> (r: String) {
        let parts: Vec<String> = vec![A::const_type(), B::const_type(), C::const_type(), D::const_type(), E::const_type(), F::const_type(), G::const_type(), H::const_type(), I::const_type(), J::const_type(), K::const_type(), L::const_type(), M::const_type(), N::const_type()];
        assert(views(parts@) =~= seq![A::type_text(), B::type_text(), C::type_text(), D::type_text(), E::type_text(), F::type_text(), G::type_text(), H::type_text(), I::type_text(), J::type_text(), K::type_text(), L::type_text(), M::type_text(), N::type_text()]);
        tuple_of(&parts)
    }

    fn const_val(&self) -> (r: String) {
        let parts: Vec<String> = vec![self.0.const_val(), self.1.const_val(), self.2.const_val(), self.3.const_val(), self.4.const_val(), self.5.const_val(), self.6.const_val(), self.7.const_val(), self.8.const_val(), self.9.const_val(), self.10.const_val(), self.11.const_val(), self.12.const_val(), self.13.const_val()];
        assert(views(parts@) =~= seq![self.0.val_text(), self.1.val_text(), self.2.val_text(), self.3.val_text(), self.4.val_text(), self.5.val_text(), self.6.val_text(), self.7.val_text(), self.8.val_text(), self.9.val_text(), self.10.val_text(), self.11.val_text(), self.12.val_text(), self.13.val_text()]);
        tuple_of(&parts)
    }

    fn const_definition(_attrs: &str, _vis: &str) -> (r: String) {
        String::new()
    }
}

impl<A: CompileConstArray, B: CompileConstArray, C: CompileConstArray, D: CompileConstArray, E: CompileConstArray, F: CompileConstArray, G: CompileConstArray, H: CompileConstArray, I: CompileConstArray, J: CompileConstArray, K: CompileConstArray, L: CompileConstArray, M: CompileConstArray, N: CompileConstArray> CompileConstArray for (A, B, C, D, E, F, G, H, I, J, K, L, M, N) {
    open spec fn array_type_text(&self) -> Seq<char> {
        tuple_text(seq![self.0.array_type_text(), self.1.array_type_text(), self.2.array_type_text(), self.3.array_type_text(), self.4.array_type_text(), self.5.array_type_text(), self.6.array_type_text(), self.7.array_type_text(), self.8.array_type_text(), self.9.array_type_text(), self.10.array_type_text(), self.11.array_type_text(), self.12.array_type_text(), self.13.array_type_text()])
    }

    open spec fn array_val_text(&self) -> Seq<char> {
        tuple_text(seq![self.0.array_val_text(), self.1.array_val_text(), self.2.array_val_text(), self.3.array_val_text(), self.4.array_val_text(), self.5.array_val_text(), self.6.array_val_text(), self.7.array_val_text(), self.8.array_val_text(), self.9.array_val_text(), self.10.array_val_text(), self.11.array_val_text(), self.12.array_val_text(), self.13.array_val_text()])
    }

    fn const_array_type(&self) -> (r: String) {
        let parts: Vec<String> = vec![self.0.const_array_type(), self.1.const_array_type(), self.2.const_array_type(), self.3.const_array_type(), self.4.const_array_type(), self.5.const_array_type(), self.6.const_array_type(), self.7.const_array_type(), self.8.const_array_type(), self.9.const_array_type(), self.10.const_array_type(), self.11.const_array_type(), self.12.const_array_type(), self.13.const_array_type()];
        assert(views(parts@) =~= seq![self.0.array_type_text(), self.1.array_type_text(), self.2.array_type_text(), self.3.array_type_text(), self.4.array_type_text(), self.5.array_type_text(), self.6.array_type_text(), self.7.array_type_text(), self.8.array_type_text(), self.9.array_type_text(), self.10.array_type_text(), self.11.array_type_text(), self.12.array_type_text(), self.13.array_type_text()]);
        tuple_of(&parts)
    }

    fn const_array_val(&self) -> (r: String) {
        let parts: Vec<String> = vec![self.0.const_array_val(), self.1.const_array_val(), self.2.const_array_val(), self.3.const_array_val(), self.4.const_array_val(), self.5.const_array_val(), self.6.const_array_val(), self.7.const_array_val(), self.8.const_array_val(), self.9.const_array_val(), self.10.const_array_val(), self.11.const_array_val(), self.12.const_array_val(), self.13.const_array_val()];
        assert(views(parts@) =~= seq![self.0.array_val_text(), self.1.array_val_text(), self.2.array_val_text(), self.3.array_val_text(), self.4.array_val_text(), self.5.array_val_text(), self.6.array_val_text(), self.7.array_val_text(), self.8.array_val_text(), self.9.array_val_text(), self.10.array_val_text(), self.11.array_val_text(), self.12.array_val_text(), self.13.array_val_text()]);
        tuple_of(&parts)
    }
}

impl<A: CompileConst, B: CompileConst, C: CompileConst, D: CompileConst, E: CompileConst, F: CompileConst, G: CompileConst, H: CompileConst, I: CompileConst, J: CompileConst, K: CompileConst, L: CompileConst, M: CompileConst, N: CompileConst, O: CompileConst> CompileConst for (A, B, C, D, E, F, G, H, I, J, K, L, M, N, O) {
    open spec fn type_text() -> Seq<char> {
        tuple_text(seq![A::type_text(), B::type_text(), C::type_text(), D::type_text(), E::type_text(), F::type_text(), G::type_text(), H::type_text(), I::type_text(), J::type_text(), K::type_text(), L::type_text(), M::type_text(), N::type_text(), O::type_text()])
    }

    open spec fn val_text(&self) -> Seq<char> {
        tuple_text(seq![self.0.val_text(), self.1.val_text(), self.2.val_text(), self.3.val_text(), self.4.val_text(), self.5.val_text(), self.6.val_text(), self.7.val_text(), self.8.val_text(), self.9.val_text(), self.10.val_text(), self.11.val_text(), self.12.val_text(), self.13.val_text(), self.14.val_text()])
    }

    open spec fn definition_text(attrs: Seq<char>, vis: Seq<char>) -> Seq<char> {
        Seq::empty()
    }

    fn const_type() -> (r: String) {
        let parts: Vec<String> = vec![A::const_type(), B::const_type(), C::const_type(), D::const_type(), E::const_type(), F::const_type(), G::const_type(), H::const_type(), I::const_type(), J::const_type(), K::const_type(), L::const_type(), M::const_type(), N::const_type(), O::const_type()];
        assert(views(parts@) =~= seq![A::type_text(), B::type_text(), C::type_text(), D::type_text(), E::type_text(), F::type_text(), G::type_text(), H::type_text(), I::type_text(), J::type_text(), K::type_text(), L::type_text(), M::type_text(), N::type_text(), O::type_text()]);
        tuple_of(&parts)
    }

    fn const_val(&self) -> (r: String) {
        let parts: Vec<String> = vec![self.0.const_val(), self.1.const_val(), self.2.const_val(), self.3.const_val(), self.4.const_val(), self.5.const_val(), self.6.const_val(), self.7.const_val(), self.8.const_val(), self.9.const_val(), self.10.const_val(), self.11.const_val(), self.12.const_val(), self.13.const_val(), self.14.const_val()];
        assert(views(parts@) =~= seq![self.0.val_text(), self.1.val_text(), self.2.val_text(), self.3.val_text(), self.4.val_text(), self.5.val_text(), self.6.val_text(), self.7.val_text(), self.8.val_text(), self.9.val_text(), self.10.val_text(), self.11.val_text(), self.12.val_text(), self.13.val_text(), self.14.val_text()]);
        tuple_of(&parts)
    }

    fn const_definition(_attrs: &str, _vis: &str) -> (r: String) {
        String::new()
    }
}

impl<A: CompileConstArray, B: CompileConstArray, C: CompileConstArray, D: CompileConstArray, E: CompileConstArray, F: CompileConstArray, G: CompileConstArray, H: CompileConstArray, I: CompileConstArray, J: CompileConstArray, K: CompileConstArray, L: CompileConstArray, M: CompileConstArray, N: CompileConstArray, O: CompileConstArray> CompileConstArray for (A, B, C, D, E, F, G, H, I, J, K, L, M, N, O) {
    open spec fn array_type_text(&self) -> Seq<char> {
        tuple_text(seq![self.0.array_type_text(), self.1.array_type_text(), self.2.array_type_text(), self.3.array_type_text(), self.4.array_type_text(), self.5.array_type_text(), self.6.array_type_text(), self.7.array_type_text(), self.8.array_type_text(), self.9.array_type_text(), self.10.array_type_text(), self.11.array_type_text(), self.12.array_type_text(), self.13.array_type_text(), self.14.array_type_text()])
    }

    open spec fn array_val_text(&self) -> Seq<char> {
        tuple_text(seq![self.0.array_val_text(), self.1.array_val_text(), self.2.array_val_text(), self.3.array_val_text(), self.4.array_val_text(), self.5.array_val_text(), self.6.array_val_text(), self.7.array_val_text(), self.8.array_val_text(), self.9.array_val_text(), self.10.array_val_text(), self.11.array_val_text(), self.12.array_val_text(), self.13.array_val_text(), self.14.array_val_text()])
    }

    fn const_array_type(&self) -> (r: String) {
        let parts: Vec<String> = vec![self.0.const_array_type(), self.1.const_array_type(), self.2.const_array_type(), self.3.const_array_type(), self.4.const_array_type(), self.5.const_array_type(), self.6.const_array_type(), self.7.const_array_type(), self.8.const_array_type(), self.9.const_array_type(), self.10.const_array_type(), self.11.const_array_type(), self.12.const_array_type(), self.13.const_array_type(), self.14.const_array_type()];
        assert(views(parts@) =~= seq![self.0.array_type_text(), self.1.array_type_text(), self.2.array_type_text(), self.3.array_type_text(), self.4.array_type_text(), self.5.array_type_text(), self.6.array_type_text(), self.7.array_type_text(), self.8.array_type_text(), self.9.array_type_text(), self.10.array_type_text(), self.11.array_type_text(), self.12.array_type_text(), self.13.array_type_text(), self.14.array_type_text()]);
        tuple_of(&parts)
    }

    fn const_array_val(&self) -> (r: String) {
        let parts: Vec<String> = vec![self.0.const_array_val(), self.1.const_array_val(), self.2.const_array_val(), self.3.const_array_val(), self.4.const_array_val(), self.5.const_array_val(), self.6.const_array_val(), self.7.const_array_val(), self.8.const_array_val(), self.9.const_array_val(), self.10.const_array_val(), self.11.const_array_val(), self.12.const_array_val(), self.13.const_array_val(), self.14.const_array_val()];
        assert(views(parts@) =~= seq![self.0.array_val_text(), self.1.array_val_text(), self.2.array_val_text(), self.3.array_val_text(), self.4.array_val_text(), self.5.array_val_text(), self.6.array_val_text(), self.7.array_val_text(), self.8.array_val_text(), self.9.array_val_text(), self.10.array_val_text(), self.11.array_val_text(), self.12.array_val_text(), self.13.array_val_text(), self.14.array_val_text()]);
        tuple_of(&parts)
    }
}

impl<A: CompileConst, B: CompileConst, C: CompileConst, D: CompileConst, E: CompileConst, F: CompileConst, G: CompileConst, H: CompileConst, I: CompileConst, J: CompileConst, K: CompileConst, L: CompileConst, M: CompileConst, N: CompileConst, O: CompileConst, P: CompileConst> CompileConst for (A, B, C, D, E, F, G, H, I, J, K, L, M, N, O, P) {
    open spec fn type_text() -> Seq<char> {
        tuple_text(seq![A::type_text(), B::type_text(), C::type_text(), D::type_text(), E::type_text(), F::type_text(), G::type_text(), H::type_text(), I::type_text(), J::type_text(), K::type_text(), L::type_text(), M::type_text(), N::type_text(), O::type_text(), P::type_text()])
    }

    open spec fn val_text(&self) -> Seq<char> {
        tuple_text(seq![self.0.val_text(), self.1.val_text(), self.2.val_text(), self.3.val_text(), self.4.val_text(), self.5.val_text(), self.6.val_text(), self.7.val_text(), self.8.val_text(), self.9.val_text(), self.10.val_text(), self.11.val_text(), self.12.val_text(), self.13.val_text(), self.14.val_text(), self.15.val_text()])
    }

    open spec fn definition_text(attrs: Seq<char>, vis: Seq<char>) -> Seq<char> {
        Seq::empty()
    }

    fn const_type() -> (r: String) {
        let parts: Vec<String> = vec![A::const_type(), B::const_type(), C::const_type(), D::const_type(), E::const_type(), F::const_type(), G::const_type(), H::const_type(), I::const_type(), J::const_type(), K::const_type(), L::const_type(), M::const_type(), N::const_type(), O::const_type(), P::const_type()];
        assert(views(parts@) =~= seq![A::type_text(), B::type_text(), C::type_text(), D::type_text(), E::type_text(), F::type_text(), G::type_text(), H::type_text(), I::type_text(), J::type_text(), K::type_text(), L::type_text(), M::type_text(), N::type_text(), O::type_text(), P::type_text()]);
        tuple_of(&parts)
    }

    fn const_val(&self) -> (r: String) {
        let parts: Vec<String> = vec![self.0.const_val(), self.1.const_val(), self.2.const_val(), self.3.const_val(), self.4.const_val(), self.5.const_val(), self.6.const_val(), self.7.const_val(), self.8.const_val(), self.9.const_val(), self.10.const_val(), self.11.const_val(), self.12.const_val(), self.13.const_val(), self.14.const_val(), self.15.const_val()];
        assert(views(parts@) =~= seq![self.0.val_text(), self.1.val_text(), self.2.val_text(), self.3.val_text(), self.4.val_text(), self.5.val_text(), self.6.val_text(), self.7.val_text(), self.8.val_text(), self.9.val_text(), self.10.val_text(), self.11.val_text(), self.12.val_text(), self.13.val_text(), self.14.val_text(), self.15.val_text()]);
        tuple_of(&parts)
    }

    fn const_definition(_attrs: &str, _vis: &str) -> (r: String) {
        String::new()
    }
}

impl<A: CompileConstArray, B: CompileConstArray, C: CompileConstArray, D: CompileConstArray, E: CompileConstArray, F: CompileConstArray, G: CompileConstArray, H: CompileConstArray, I: CompileConstArray, J: CompileConstArray, K: CompileConstArray, L: CompileConstArray, M: CompileConstArray, N: CompileConstArray, O: CompileConstArray, P: CompileConstArray> CompileConstArray for (A, B, C, D, E, F, G, H, I, J, K, L, M, N, O, P) {
    open spec fn array_type_text(&self) -> Seq<char> {
        tuple_text(seq![self.0.array_type_text(), self.1.array_type_text(), self.2.array_type_text(), self.3.array_type_text(), self.4.array_type_text(), self.5.array_type_text(), self.6.array_type_text(), self.7.array_type_text(), self.8.array_type_text(), self.9.array_type_text(), self.10.array_type_text(), self.11.array_type_text(), self.12.array_type_text(), self.13.array_type_text(), self.14.array_type_text(), self.15.array_type_text()])
    }

    open spec fn array_val_text(&self) -> Seq<char> {
        tuple_text(seq![self.0.array_val_text(), self.1.array_val_text(), self.2.array_val_text(), self.3.array_val_text(), self.4.array_val_text(), self.5.array_val_text(), self.6.array_val_text(), self.7.array_val_text(), self.8.array_val_text(), self.9.array_val_text(), self.10.array_val_text(), self.11.array_val_text(), self.12.array_val_text(), self.13.array_val_text(), self.14.array_val_text(), self.15.array_val_text()])
    }

    fn const_array_type(&self) -> (r: String) {
        let parts: Vec<String> = vec![self.0.const_array_type(), self.1.const_array_type(), self.2.const_array_type(), self.3.const_array_type(), self.4.const_array_type(), self.5.const_array_type(), self.6.const_array_type(), self.7.const_array_type(), self.8.const_array_type(), self.9.const_array_type(), self.10.const_array_type(), self.11.const_array_type(), self.12.const_array_type(), self.13.const_array_type(), self.14.const_array_type(), self.15.const_array_type()];
        assert(views(parts@) =~= seq![self.0.array_type_text(), self.1.array_type_text(), self.2.array_type_text(), self.3.array_type_text(), self.4.array_type_text(), self.5.array_type_text(), self.6.array_type_text(), self.7.array_type_text(), self.8.array_type_text(), self.9.array_type_text(), self.10.array_type_text(), self.11.array_type_text(), self.12.array_type_text(), self.13.array_type_text(), self.14.array_type_text(), self.15.array_type_text()]);
        tuple_of(&parts)
    }

    fn const_array_val(&self) -> (r: String) {
        let parts: Vec<String> = vec![self.0.const_array_val(), self.1.const_array_val(), self.2.const_array_val(), self.3.const_array_val(), self.4.const_array_val(), self.5.const_array_val(), self.6.const_array_val(), self.7.const_array_val(), self.8.const_array_val(), self.9.const_array_val(), self.10.const_array_val(), self.11.const_array_val(), self.12.const_array_val(), self.13.const_array_val(), self.14.const_array_val(), self.15.const_array_val()];
        assert(views(parts@) =~= seq![self.0.array_val_text(), self.1.array_val_text(), self.2.array_val_text(), self.3.array_val_text(), self.4.array_val_text(), self.5.array_val_text(), self.6.array_val_text(), self.7.array_val_text(), self.8.array_val_text(), self.9.array_val_text(), self.10.array_val_text(), self.11.array_val_text(), self.12.array_val_text(), self.13.array_val_text(), self.14.array_val_text(), self.15.array_val_text()]);
        tuple_of(&parts)
    }
}

} // verus!
