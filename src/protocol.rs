//! The rendering protocol: a type name and a value literal for each
//! supported value, and the declarations assembled from the two.
use vstd::prelude::*;
use crate::text::{append_spaced, spaced};

verus! {

/// Which kind of item a declaration introduces.
#[derive(Debug, Copy, Clone, PartialEq, Eq, Structural)]
pub enum DeclarationType {
    Const,
    Static,
}

/// The keyword that introduces a declaration of the given kind.
pub open spec fn keyword_text(kind: DeclarationType) -> Seq<char> {
    match kind {
        DeclarationType::Const => "const"@,
        DeclarationType::Static => "static"@,
    }
}

impl DeclarationType {
    /// The keyword of this kind of declaration: `const` or `static`.
    pub fn keyword(&self) -> (r: &'static str)
        ensures
            r@ == keyword_text(*self),
    {
        match self {
            DeclarationType::Const => "const",
            DeclarationType::Static => "static",
        }
    }
}

/// `{attrs} {vis} {kind} {name}: {ty} = {val};`, where the attributes and
/// the visibility, each with the space after it, are left out when empty.
pub open spec fn declaration_text(
    attrs: Seq<char>,
    vis: Seq<char>,
    kind: DeclarationType,
    name: Seq<char>,
    ty: Seq<char>,
    val: Seq<char>,
) -> Seq<char> {
    spaced(attrs) + spaced(vis) + keyword_text(kind) + " "@ + name + ": "@ + ty + " = "@ + val
        + ";"@
}

/// Assembles a declaration from its parts.
pub fn assemble_declaration(
    attrs: &str,
    vis: &str,
    kind: DeclarationType,
    name: &str,
    ty: &str,
    val: &str,
) -> (r: String)
    ensures
        r@ == declaration_text(attrs@, vis@, kind, name@, ty@, val@),
{
    let mut r = String::new();
    append_spaced(&mut r, attrs);
    append_spaced(&mut r, vis);
    r.append(kind.keyword());
    r.append(" ");
    r.append(name);
    r.append(": ");
    r.append(ty);
    r.append(" = ");
    r.append(val);
    r.append(";");
    assert(r@ =~= declaration_text(attrs@, vis@, kind, name@, ty@, val@));
    r
}

/// How values of a type are written as compile-time constants.
pub trait CompileConst {
    /// The type expression under which a constant of this type is declared.
    /// Left unspecified unless an impl states it.
    open spec fn type_text() -> Seq<char> {
        arbitrary()
    }

    /// The literal expression that evaluates to this value. Left
    /// unspecified unless an impl states it.
    open spec fn val_text(&self) -> Seq<char> {
        arbitrary()
    }

    /// The definition of the type itself, empty where the type needs none.
    /// Left unspecified unless an impl states it.
    open spec fn definition_text(attrs: Seq<char>, vis: Seq<char>) -> Seq<char> {
        arbitrary()
    }

    /// The type expression of a constant of this type.
    fn const_type() -> (r: String)
        ensures
            r@ == Self::type_text(),
    ;

    /// The literal expression of this value.
    fn const_val(&self) -> (r: String)
        ensures
            r@ == self.val_text(),
    ;

    /// The definition of the type, with the given attributes and visibility.
    fn const_definition(attrs: &str, vis: &str) -> (r: String)
        ensures
            r@ == Self::definition_text(attrs@, vis@),
    ;

    /// A declaration named `name` of this value, as a `const` or a `static`.
    fn declaration(&self, attrs: &str, vis: &str, declaration_type: DeclarationType, name: &str) -> (r:
        String)
        ensures
            r@ == declaration_text(
                attrs@,
                vis@,
                declaration_type,
                name@,
                Self::type_text(),
                self.val_text(),
            ),
    {
        let ty = Self::const_type();
        let val = self.const_val();
        assemble_declaration(attrs, vis, declaration_type, name, ty.as_str(), val.as_str())
    }

    /// A `const` declaration of this value.
    fn const_declaration(&self, attrs: &str, vis: &str, name: &str) -> (r: String)
        ensures
            r@ == declaration_text(
                attrs@,
                vis@,
                DeclarationType::Const,
                name@,
                Self::type_text(),
                self.val_text(),
            ),
    {
        self.declaration(attrs, vis, DeclarationType::Const, name)
    }

    /// A `static` declaration of this value.
    fn static_declaration(&self, attrs: &str, vis: &str, name: &str) -> (r: String)
        ensures
            r@ == declaration_text(
                attrs@,
                vis@,
                DeclarationType::Static,
                name@,
                Self::type_text(),
                self.val_text(),
            ),
    {
        self.declaration(attrs, vis, DeclarationType::Static, name)
    }
}

/// How a value whose length is known only at run time is written as a
/// fixed-size array constant of that length.
pub trait CompileConstArray {
    /// The array type expression, with this value's length in it. Left
    /// unspecified unless an impl states it.
    open spec fn array_type_text(&self) -> Seq<char> {
        arbitrary()
    }

    /// The array literal expression of this value. Left unspecified unless
    /// an impl states it.
    open spec fn array_val_text(&self) -> Seq<char> {
        arbitrary()
    }

    /// The array type expression of this value.
    fn const_array_type(&self) -> (r: String)
        ensures
            r@ == self.array_type_text(),
    ;

    /// The array literal expression of this value.
    fn const_array_val(&self) -> (r: String)
        ensures
            r@ == self.array_val_text(),
    ;

    /// A declaration named `name` of this value as a fixed-size array.
    fn array_declaration(
        &self,
        attrs: &str,
        vis: &str,
        declaration_type: DeclarationType,
        name: &str,
    ) -> (r: String)
        ensures
            r@ == declaration_text(
                attrs@,
                vis@,
                declaration_type,
                name@,
                self.array_type_text(),
                self.array_val_text(),
            ),
    {
        let ty = self.const_array_type();
        let val = self.const_array_val();
        assemble_declaration(attrs, vis, declaration_type, name, ty.as_str(), val.as_str())
    }

    /// A `const` declaration of this value as a fixed-size array.
    fn const_array_declaration(&self, attrs: &str, vis: &str, name: &str) -> (r: String)
        ensures
            r@ == declaration_text(
                attrs@,
                vis@,
                DeclarationType::Const,
                name@,
                self.array_type_text(),
                self.array_val_text(),
            ),
    {
        self.array_declaration(attrs, vis, DeclarationType::Const, name)
    }

    /// A `static` declaration of this value as a fixed-size array.
    fn static_array_declaration(&self, attrs: &str, vis: &str, name: &str) -> (r: String)
        ensures
            r@ == declaration_text(
                attrs@,
                vis@,
                DeclarationType::Static,
                name@,
                self.array_type_text(),
                self.array_val_text(),
            ),
    {
        self.array_declaration(attrs, vis, DeclarationType::Static, name)
    }
}

} // verus!
