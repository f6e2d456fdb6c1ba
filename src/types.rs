//! The Martian types and the mapping of native Rust types onto them.
use vstd::prelude::*;
use std::collections::{HashMap, HashSet};
use std::path::{Path, PathBuf};
use crate::text::{pad_right, push_padded, MroDisplay};

verus! {

/// Primary data types of the Martian language.
#[derive(Debug, Clone, PartialEq, Eq)]
pub enum MartianPrimaryType {
    Int,
    Float,
    Str,
    Bool,
    Dict,
    Path,
    FileType(String),
}

/// A primary type, or an array of one.
#[derive(Debug, Clone, PartialEq, Eq)]
pub enum MartianType {
    Primary(MartianPrimaryType),
    Array(MartianPrimaryType),
}

/// The token that stands for a primary type in a declaration.
pub open spec fn primary_token(p: MartianPrimaryType) -> Seq<char> {
    match p {
        MartianPrimaryType::Int => "int"@,
        MartianPrimaryType::Float => "float"@,
        MartianPrimaryType::Str => "string"@,
        MartianPrimaryType::Bool => "bool"@,
        MartianPrimaryType::Dict => "map"@,
        MartianPrimaryType::Path => "path"@,
        MartianPrimaryType::FileType(ext) => ext@,
    }
}

/// The text of a type in a declaration: arrays carry a `[]` suffix.
pub open spec fn type_token(t: MartianType) -> Seq<char> {
    match t {
        MartianType::Primary(p) => primary_token(p),
        MartianType::Array(p) => primary_token(p) + "[]"@,
    }
}

impl MartianPrimaryType {
    /// The text of the primary type.
    pub fn token(&self) -> (r: String)
        ensures
            r@ == primary_token(*self),
    {
        match self {
            MartianPrimaryType::Int => String::from_str("int"),
            MartianPrimaryType::Float => String::from_str("float"),
            MartianPrimaryType::Str => String::from_str("string"),
            MartianPrimaryType::Bool => String::from_str("bool"),
            MartianPrimaryType::Dict => String::from_str("map"),
            MartianPrimaryType::Path => String::from_str("path"),
            MartianPrimaryType::FileType(ext) => ext.clone(),
        }
    }
}

impl MartianPrimaryType {
    /// A copy of the type.
    pub fn duplicate(&self) -> (r: Self)
        ensures
            r == *self,
    {
        match self {
            MartianPrimaryType::Int => MartianPrimaryType::Int,
            MartianPrimaryType::Float => MartianPrimaryType::Float,
            MartianPrimaryType::Str => MartianPrimaryType::Str,
            MartianPrimaryType::Bool => MartianPrimaryType::Bool,
            MartianPrimaryType::Dict => MartianPrimaryType::Dict,
            MartianPrimaryType::Path => MartianPrimaryType::Path,
            MartianPrimaryType::FileType(ext) => MartianPrimaryType::FileType(ext.clone()),
        }
    }
}

impl MroDisplay for MartianPrimaryType {
    open spec fn mro_text(&self) -> Seq<char> {
        primary_token(*self)
    }

    open spec fn mro_text_with_width(&self, w: nat) -> Seq<char> {
        pad_right(primary_token(*self), w)
    }

    open spec fn mro_min_width(&self) -> nat {
        primary_token(*self).len()
    }

    fn min_width(&self) -> (r: usize) {
        self.token().as_str().unicode_len()
    }

    fn mro_string_no_width(&self) -> (r: String) {
        self.token()
    }

    fn mro_string_with_width(&self, field_width: usize) -> (r: String) {
        let mut r = String::new();
        push_padded(&mut r, self.token().as_str(), field_width);
        r
    }
}

impl MartianType {
    /// The text of the type.
    pub fn token(&self) -> (r: String)
        ensures
            r@ == type_token(*self),
    {
        match self {
            MartianType::Primary(p) => p.token(),
            MartianType::Array(p) => {
                let mut r = p.token();
                r.append("[]");
                r
            },
        }
    }
}

impl MartianType {
    /// A copy of the type.
    pub fn duplicate(&self) -> (r: Self)
        ensures
            r == *self,
    {
        match self {
            MartianType::Primary(p) => MartianType::Primary(p.duplicate()),
            MartianType::Array(p) => MartianType::Array(p.duplicate()),
        }
    }
}

impl MroDisplay for MartianType {
    open spec fn mro_text(&self) -> Seq<char> {
        type_token(*self)
    }

    open spec fn mro_text_with_width(&self, w: nat) -> Seq<char> {
        pad_right(type_token(*self), w)
    }

    open spec fn mro_min_width(&self) -> nat {
        type_token(*self).len()
    }

    fn min_width(&self) -> (r: usize) {
        self.token().as_str().unicode_len()
    }

    fn mro_string_no_width(&self) -> (r: String) {
        self.token()
    }

    fn mro_string_with_width(&self, field_width: usize) -> (r: String) {
        let mut r = String::new();
        push_padded(&mut r, self.token().as_str(), field_width);
        r
    }
}

/// A native type that maps onto a primary Martian type.
pub trait AsMartianPrimaryType {
    /// The primary type that the native type maps onto.
    spec fn martian_primary_type() -> MartianPrimaryType;

    fn as_martian_primary_type() -> (r: MartianPrimaryType)
        ensures
            r == Self::martian_primary_type(),
    ;
}

/// A native type that maps onto a Martian type.
pub trait AsMartianType {
    /// The type that the native type maps onto.
    spec fn martian_type() -> MartianType;

    fn as_martian_type() -> (r: MartianType)
        ensures
            r == Self::martian_type(),
    ;
}

impl AsMartianPrimaryType for i8 {
    open spec fn martian_primary_type() -> MartianPrimaryType {
        MartianPrimaryType::Int
    }

    fn as_martian_primary_type() -> (r: MartianPrimaryType) {
        MartianPrimaryType::Int
    }
}

impl AsMartianPrimaryType for i16 {
    open spec fn martian_primary_type() -> MartianPrimaryType {
        MartianPrimaryType::Int
    }

    fn as_martian_primary_type() -> (r: MartianPrimaryType) {
        MartianPrimaryType::Int
    }
}

impl AsMartianPrimaryType for i32 {
    open spec fn martian_primary_type() -> MartianPrimaryType {
        MartianPrimaryType::Int
    }

    fn as_martian_primary_type() -> (r: MartianPrimaryType) {
        MartianPrimaryType::Int
    }
}

impl AsMartianPrimaryType for i64 {
    open spec fn martian_primary_type() -> MartianPrimaryType {
        MartianPrimaryType::Int
    }

    fn as_martian_primary_type() -> (r: MartianPrimaryType) {
        MartianPrimaryType::Int
    }
}

impl AsMartianPrimaryType for i128 {
    open spec fn martian_primary_type() -> MartianPrimaryType {
        MartianPrimaryType::Int
    }

    fn as_martian_primary_type() -> (r: MartianPrimaryType) {
        MartianPrimaryType::Int
    }
}

impl AsMartianPrimaryType for isize {
    open spec fn martian_primary_type() -> MartianPrimaryType {
        MartianPrimaryType::Int
    }

    fn as_martian_primary_type() -> (r: MartianPrimaryType) {
        MartianPrimaryType::Int
    }
}

impl AsMartianPrimaryType for u8 {
    open spec fn martian_primary_type() -> MartianPrimaryType {
        MartianPrimaryType::Int
    }

    fn as_martian_primary_type() -> (r: MartianPrimaryType) {
        MartianPrimaryType::Int
    }
}

impl AsMartianPrimaryType for u16 {
    open spec fn martian_primary_type() -> MartianPrimaryType {
        MartianPrimaryType::Int
    }

    fn as_martian_primary_type() -> (r: MartianPrimaryType) {
        MartianPrimaryType::Int
    }
}

impl AsMartianPrimaryType for u32 {
    open spec fn martian_primary_type() -> MartianPrimaryType {
        MartianPrimaryType::Int
    }

    fn as_martian_primary_type() -> (r: MartianPrimaryType) {
        MartianPrimaryType::Int
    }
}

impl AsMartianPrimaryType for u64 {
    open spec fn martian_primary_type() -> MartianPrimaryType {
        MartianPrimaryType::Int
    }

    fn as_martian_primary_type() -> (r: MartianPrimaryType) {
        MartianPrimaryType::Int
    }
}

impl AsMartianPrimaryType for u128 {
    open spec fn martian_primary_type() -> MartianPrimaryType {
        MartianPrimaryType::Int
    }

    fn as_martian_primary_type() -> (r: MartianPrimaryType) {
        MartianPrimaryType::Int
    }
}

impl AsMartianPrimaryType for usize {
    open spec fn martian_primary_type() -> MartianPrimaryType {
        MartianPrimaryType::Int
    }

    fn as_martian_primary_type() -> (r: MartianPrimaryType) {
        MartianPrimaryType::Int
    }
}

impl AsMartianPrimaryType for bool {
    open spec fn martian_primary_type() -> MartianPrimaryType {
        MartianPrimaryType::Bool
    }

    fn as_martian_primary_type() -> (r: MartianPrimaryType) {
        MartianPrimaryType::Bool
    }
}

impl AsMartianPrimaryType for char {
    open spec fn martian_primary_type() -> MartianPrimaryType {
        MartianPrimaryType::Str
    }

    fn as_martian_primary_type() -> (r: MartianPrimaryType) {
        MartianPrimaryType::Str
    }
}

impl AsMartianPrimaryType for String {
    open spec fn martian_primary_type() -> MartianPrimaryType {
        MartianPrimaryType::Str
    }

    fn as_martian_primary_type() -> (r: MartianPrimaryType) {
        MartianPrimaryType::Str
    }
}

impl AsMartianPrimaryType for &'static str {
    open spec fn martian_primary_type() -> MartianPrimaryType {
        MartianPrimaryType::Str
    }

    fn as_martian_primary_type() -> (r: MartianPrimaryType) {
        MartianPrimaryType::Str
    }
}

/// The owned path type of std, declared so that it can map onto `path`.
#[verifier::external_type_specification]
#[verifier::external_body]
pub struct ExPathBuf(PathBuf);

/// The borrowed path type of std, declared so that it can map onto `path`.
#[verifier::external_type_specification]
#[verifier::external_body]
pub struct ExPath(Path);

impl AsMartianPrimaryType for Path {
    open spec fn martian_primary_type() -> MartianPrimaryType {
        MartianPrimaryType::Path
    }

    fn as_martian_primary_type() -> (r: MartianPrimaryType) {
        MartianPrimaryType::Path
    }
}

impl AsMartianPrimaryType for PathBuf {
    open spec fn martian_primary_type() -> MartianPrimaryType {
        MartianPrimaryType::Path
    }

    fn as_martian_primary_type() -> (r: MartianPrimaryType) {
        MartianPrimaryType::Path
    }
}

/// Any key-value map is an untyped Martian map.
impl<K, V, H> AsMartianPrimaryType for HashMap<K, V, H> {
    open spec fn martian_primary_type() -> MartianPrimaryType {
        MartianPrimaryType::Dict
    }

    fn as_martian_primary_type() -> (r: MartianPrimaryType) {
        MartianPrimaryType::Dict
    }
}

/// Every primary type is a type of its own.
impl<T: AsMartianPrimaryType> AsMartianType for T {
    open spec fn martian_type() -> MartianType {
        MartianType::Primary(T::martian_primary_type())
    }

    fn as_martian_type() -> (r: MartianType) {
        MartianType::Primary(T::as_martian_primary_type())
    }
}

/// Any value can be null in Martian: an optional value has the type of
/// the value.
impl<T: AsMartianType> AsMartianType for Option<T> {
    open spec fn martian_type() -> MartianType {
        T::martian_type()
    }

    fn as_martian_type() -> (r: MartianType) {
        T::as_martian_type()
    }
}

/// A list is an array of its element's primary type.
impl<T: AsMartianPrimaryType> AsMartianType for Vec<T> {
    open spec fn martian_type() -> MartianType {
        MartianType::Array(T::martian_primary_type())
    }

    fn as_martian_type() -> (r: MartianType) {
        MartianType::Array(T::as_martian_primary_type())
    }
}

/// A set is an array too: the language does not tell sets from lists.
impl<K: AsMartianPrimaryType, H> AsMartianType for HashSet<K, H> {
    open spec fn martian_type() -> MartianType {
        MartianType::Array(K::martian_primary_type())
    }

    fn as_martian_type() -> (r: MartianType) {
        MartianType::Array(K::as_martian_primary_type())
    }
}

} // verus!
