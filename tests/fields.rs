use martian::MartianPrimaryType::{Bool, FileType, Int};
use martian::MartianType::{Array, Primary};
use martian::{MroDisplay, MroField};

#[test]
fn field_scenario_unsorted() {
    let f = MroField::new("unsorted", Array(Int));
    assert_eq!(f.mro_string(None), "int[] unsorted");
    assert_eq!(f.ty().mro_string(Some(6)), "int[] ");
    assert_eq!(f.mro_string(Some(6)), "int[]  unsorted");
    assert_eq!(f.min_width(), 5);
}

#[test]
fn reserved_tokens_are_refused() {
    for t in [
        "in", "out", "stage", "volatile", "strict", "true", "split", "filetype", "src", "py",
        "comp", "retain",
    ] {
        assert!(MroField::is_martian_token(t));
        assert!(!MroField::is_valid_name(t));
        assert!(MroField::try_new(t, Primary(Int)).is_none());
    }
}

#[test]
fn reserved_prefix_is_refused() {
    assert!(MroField::try_new("__x", Primary(Int)).is_none());
    assert!(MroField::try_new("__", Primary(Bool)).is_none());
}

#[test]
fn other_names_are_accepted() {
    for n in ["reverse", "_x", "x__", "input", "outs", "s", ""] {
        let f = MroField::try_new(n, Primary(Int)).unwrap();
        assert_eq!(f.name(), n);
        assert_eq!(f.ty(), &Primary(Int));
    }
}

#[test]
fn field_clone_keeps_name_and_type() {
    let f = MroField::new("reads", Primary(FileType("bam".into())));
    let g = f.clone();
    assert_eq!(f, g);
}

#[test]
fn void_struct_has_no_fields() {
    assert!(<martian::MartianVoid as martian::MartianStruct>::mro_fields().is_empty());
}
