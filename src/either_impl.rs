//! Values of the two-way sum type `Either`.
use vstd::prelude::*;
use crate::protocol::CompileConst;
use either::Either;

verus! {

/// Relies on `either::Either`: an enum whose values are `Left(l)` and
/// `Right(r)`, both fields public.
#[verifier::external_type_specification]
#[verifier::reject_recursive_types(L)]
#[verifier::reject_recursive_types(R)]
pub struct ExEither<L, R>(Either<L, R>);

/// The type of an `Either` constant over the two branch types.
pub open spec fn either_type_text(left: Seq<char>, right: Seq<char>) -> Seq<char> {
    "::either::Either<"@ + left + ","@ + right + ">"@
}

/// The literal of an `Either` value: the branch that holds it, around the
/// literal of the value.
pub open spec fn either_text(inner: Either<Seq<char>, Seq<char>>) -> Seq<char> {
    match inner {
        Either::Left(v) => "::either::Either::Left("@ + v + ")"@,
        Either::Right(v) => "::either::Either::Right("@ + v + ")"@,
    }
}

impl<L: CompileConst, R: CompileConst> CompileConst for Either<L, R> {
    open spec fn type_text() -> Seq<char> {
        either_type_text(L::type_text(), R::type_text())
    }

    open spec fn val_text(&self) -> Seq<char> {
        match self {
            Either::Left(v) => either_text(Either::Left(v.val_text())),
            Either::Right(v) => either_text(Either::Right(v.val_text())),
        }
    }

    open spec fn definition_text(attrs: Seq<char>, vis: Seq<char>) -> Seq<char> {
        Seq::empty()
    }

    fn const_type() -> (r: String) {
        let mut r = String::from_str("::either::Either<");
        let left = L::const_type();
        let right = R::const_type();
        r.append(left.as_str());
        r.append(",");
        r.append(right.as_str());
        r.append(">");
        assert(r@ =~= either_type_text(L::type_text(), R::type_text()));
        r
    }

    fn const_val(&self) -> (r: String) {
        match self {
            Either::Left(v) => {
                let mut r = String::from_str("::either::Either::Left(");
                let inner = v.const_val();
                r.append(inner.as_str());
                r.append(")");
                assert(r@ =~= either_text(Either::Left(v.val_text())));
                r
            },
            Either::Right(v) => {
                let mut r = String::from_str("::either::Either::Right(");
                let inner = v.const_val();
                r.append(inner.as_str());
                r.append(")");
                assert(r@ =~= either_text(Either::Right(v.val_text())));
                r
            },
        }
    }

    fn const_definition(_attrs: &str, _vis: &str) -> (r: String) {
        String::new()
    }
}

} // verus!
