use martian::MartianPrimaryType::{Bool, Dict, Int, Path, Str};
use martian::MartianType::{Array, Primary};
use martian::{AsMartianPrimaryType, AsMartianType};
use std::collections::{HashMap, HashSet};
use std::path::PathBuf;

#[test]
fn scalars_map_to_primary_types() {
    assert_eq!(i8::as_martian_type(), Primary(Int));
    assert_eq!(u128::as_martian_type(), Primary(Int));
    assert_eq!(usize::as_martian_primary_type(), Int);
    assert_eq!(bool::as_martian_type(), Primary(Bool));
    assert_eq!(char::as_martian_type(), Primary(Str));
    assert_eq!(String::as_martian_type(), Primary(Str));
    assert_eq!(<&'static str>::as_martian_type(), Primary(Str));
    assert_eq!(PathBuf::as_martian_type(), Primary(Path));
}

#[test]
fn containers_map_to_arrays_and_maps() {
    assert_eq!(Vec::<i32>::as_martian_type(), Array(Int));
    assert_eq!(HashSet::<String>::as_martian_type(), Array(Str));
    assert_eq!(HashMap::<String, Vec<u8>>::as_martian_type(), Primary(Dict));
    assert_eq!(Option::<u16>::as_martian_type(), Primary(Int));
    assert_eq!(Option::<Vec<bool>>::as_martian_type(), Array(Bool));
}
