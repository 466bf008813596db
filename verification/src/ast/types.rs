use vstd::prelude::*;
use crate::text::push_text;

verus! {

/// The types of the language. `Void` is the type of a function that returns
/// nothing; no variable has it.
#[derive(Debug, PartialEq)]
pub enum Type {
    Int,
    String,
    Char,
    Bool,
    Array(Box<Type>),
    Void,
}

impl Clone for Type {
    fn clone(&self) -> (r: Self)
        ensures
            r == *self,
        decreases self,
    {
        match self {
            Type::Int => Type::Int,
            Type::String => Type::String,
            Type::Char => Type::Char,
            Type::Bool => Type::Bool,
            Type::Array(element) => Type::Array(Box::new((**element).clone())),
            Type::Void => Type::Void,
        }
    }
}

impl Type {
    /// How a type is written in source text.
    pub open spec fn spelling(self) -> Seq<char>
        decreases self,
    {
        match self {
            Type::Int => "Int"@,
            Type::String => "String"@,
            Type::Char => "Char"@,
            Type::Bool => "Bool"@,
            Type::Array(element) => "Array<"@ + element.spelling() + ">"@,
            Type::Void => "Void"@,
        }
    }

    /// Appends to `out` how the type is written in source text.
    pub fn write_spelling(&self, out: &mut String)
        ensures
            final(out)@ == old(out)@ + self.spelling(),
        decreases self,
    {
        match self {
            Type::Int => push_text(out, "Int"),
            Type::String => push_text(out, "String"),
            Type::Char => push_text(out, "Char"),
            Type::Bool => push_text(out, "Bool"),
            Type::Array(element) => {
                push_text(out, "Array<");
                element.write_spelling(out);
                push_text(out, ">");
            },
            Type::Void => push_text(out, "Void"),
        }
    }

    /// Structural equality: two array types are equal exactly when their
    /// element types are.
    pub fn same(&self, other: &Type) -> (r: bool)
        ensures
            r == (*self == *other),
        decreases self,
    {
        match (self, other) {
            (Type::Int, Type::Int) => true,
            (Type::String, Type::String) => true,
            (Type::Char, Type::Char) => true,
            (Type::Bool, Type::Bool) => true,
            (Type::Void, Type::Void) => true,
            (Type::Array(a), Type::Array(b)) => a.same(b),
            _ => false,
        }
    }
}

} // verus!
