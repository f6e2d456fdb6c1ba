//! Fields of a stage: a validated name with its Martian type.
use vstd::prelude::*;
use crate::text::{pad_right, push_padded, MroDisplay};
use crate::types::{type_token, MartianType};

verus! {

/// The words of the Martian language, which no field may be named.
pub open spec fn is_martian_token(s: Seq<char>) -> bool {
    s == "in"@ || s == "out"@ || s == "stage"@ || s == "volatile"@ || s == "strict"@ || s
        == "true"@ || s == "split"@ || s == "filetype"@ || s == "src"@ || s == "py"@ || s
        == "comp"@ || s == "retain"@
}

/// Names that begin with two underscores are kept for Martian itself.
pub open spec fn has_reserved_prefix(s: Seq<char>) -> bool {
    s.len() >= 2 && s[0] == '_' && s[1] == '_'
}

/// A name that a field may carry.
pub open spec fn valid_field_name(s: Seq<char>) -> bool {
    !is_martian_token(s) && !has_reserved_prefix(s)
}

fn same_text(a: &str, b: &str) -> (r: bool)
    ensures
        r == (a@ == b@),
{
    a.to_owned() == b.to_owned()
}

/// A variable listed in a stage declaration, with its type. For example
/// `in int[] unsorted` declares the field `unsorted` of type `int[]`.
#[derive(Debug, PartialEq, Eq)]
pub struct MroField {
    name: String,
    ty: MartianType,
}

impl MroField {
    /// The name of the field.
    pub closed spec fn field_name(&self) -> Seq<char> {
        self.name@
    }

    /// The type of the field.
    pub closed spec fn field_type(&self) -> MartianType {
        self.ty
    }

    #[verifier::type_invariant]
    spec fn name_is_valid(&self) -> bool {
        valid_field_name(self.name@)
    }

    /// Whether `name` is a word of the language.
    pub fn is_martian_token(name: &str) -> (r: bool)
        ensures
            r == is_martian_token(name@),
    {
        same_text(name, "in") || same_text(name, "out") || same_text(name, "stage") || same_text(
            name,
            "volatile",
        ) || same_text(name, "strict") || same_text(name, "true") || same_text(name, "split")
            || same_text(name, "filetype") || same_text(name, "src") || same_text(name, "py")
            || same_text(name, "comp") || same_text(name, "retain")
    }

    /// Whether a field may be named `name`.
    pub fn is_valid_name(name: &str) -> (r: bool)
        ensures
            r == valid_field_name(name@),
    {
        if Self::is_martian_token(name) {
            return false;
        }
        let n = name.unicode_len();
        !(n >= 2 && name.get_char(0) == '_' && name.get_char(1) == '_')
    }

    /// A field named `name` of type `ty`; the name must be valid.
    pub fn new(name: &str, ty: MartianType) -> (r: Self)
        requires
            valid_field_name(name@),
        ensures
            r.field_name() == name@,
            r.field_type() == ty,
    {
        MroField { name: name.to_owned(), ty }
    }

    /// A field named `name` of type `ty`, or `None` where the name is not
    /// valid.
    pub fn try_new(name: &str, ty: MartianType) -> (r: Option<Self>)
        ensures
            r is Some <==> valid_field_name(name@),
            r matches Some(f) ==> f.field_name() == name@ && f.field_type() == ty,
    {
        if Self::is_valid_name(name) {
            Some(Self::new(name, ty))
        } else {
            None
        }
    }

    /// The name of the field.
    pub fn name(&self) -> (r: &String)
        ensures
            r@ == self.field_name(),
            valid_field_name(r@),
    {
        proof {
            use_type_invariant(self);
        }
        &self.name
    }

    /// The type of the field.
    pub fn ty(&self) -> (r: &MartianType)
        ensures
            *r == self.field_type(),
    {
        &self.ty
    }
}

impl Clone for MroField {
    fn clone(&self) -> (r: Self)
        ensures
            r == *self,
    {
        proof {
            use_type_invariant(self);
        }
        MroField { name: self.name.clone(), ty: self.ty.duplicate() }
    }
}

/// A field in natural form: its type, a blank and its name.
pub open spec fn field_text(f: MroField) -> Seq<char> {
    type_token(f.field_type()) + " "@ + f.field_name()
}

/// A field against a width: only the type column is padded.
pub open spec fn field_text_with_width(f: MroField, w: nat) -> Seq<char> {
    pad_right(type_token(f.field_type()), w) + " "@ + f.field_name()
}

impl MroDisplay for MroField {
    open spec fn mro_text(&self) -> Seq<char> {
        field_text(*self)
    }

    open spec fn mro_text_with_width(&self, w: nat) -> Seq<char> {
        field_text_with_width(*self, w)
    }

    open spec fn mro_min_width(&self) -> nat {
        type_token(self.field_type()).len()
    }

    fn min_width(&self) -> (r: usize) {
        self.ty.min_width()
    }

    fn mro_string_no_width(&self) -> (r: String) {
        let mut r = self.ty.token();
        r.append(" ");
        r.append(self.name.as_str());
        r
    }

    fn mro_string_with_width(&self, field_width: usize) -> (r: String) {
        let mut r = String::new();
        push_padded(&mut r, self.ty.token().as_str(), field_width);
        r.append(" ");
        r.append(self.name.as_str());
        r
    }
}

/// A struct whose fields are declared as fields of a stage.
pub trait MartianStruct {
    fn mro_fields() -> Vec<MroField>;
}

/// The inputs or outputs of a stage that has none.
#[derive(Debug, Clone, Copy, PartialEq, Eq)]
pub struct MartianVoid;

impl MartianStruct for MartianVoid {
    fn mro_fields() -> Vec<MroField> {
        Vec::new()
    }
}

} // verus!
