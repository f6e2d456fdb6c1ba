use martian::MartianPrimaryType::{Bool, Dict, FileType, Float, Int, Path, Str};
use martian::MartianType::{Array, Primary};
use martian::{MroDisplay, MroUsing, Volatile};

#[test]
fn test_martian_primary_type_display() {
    assert_eq!(Int.mro_string_no_width(), "int");
    assert_eq!(Int.mro_string(Some(4)), "int ");
    assert_eq!(FileType("txt".into()).mro_string_with_width(5), "txt  ");
    assert_eq!(FileType("fastq.lz4".into()).mro_string(None), "fastq.lz4");
}

#[test]
fn test_martian_type_display() {
    assert_eq!(Primary(Int).mro_string_no_width(), "int");
    assert_eq!(Array(Int).mro_string(Some(7)), "int[]  ");
    assert_eq!(
        Array(FileType("txt".into())).mro_string_with_width(5),
        "txt[]"
    );
    assert_eq!(
        Primary(FileType("fastq.lz4".into())).mro_string(None),
        "fastq.lz4"
    );
}

#[test]
fn test_volatile_parse() {
    assert_eq!("strict".parse::<Volatile>(), Ok(Volatile::Strict));
    assert!("foo".parse::<Volatile>().is_err());
}

#[test]
fn test_volatile_display() {
    let vol = Volatile::Strict;
    assert_eq!(vol.mro_string(None), "strict");
    assert_eq!(vol.mro_string_no_width(), "strict");
    assert_eq!(vol.min_width(), 6);
    assert_eq!(vol.mro_string(Some(10)), "strict    ");
}

#[test]
fn test_mro_using_display() {
    assert_eq!(
        MroUsing {
            mem_gb: Some(1),
            ..Default::default()
        }
        .mro_string_no_width(),
        "using (\n    mem_gb = 1,\n)\n"
    );

    assert_eq!(
        MroUsing {
            mem_gb: Some(1),
            vmem_gb: Some(4),
            volatile: Some(Volatile::Strict),
            ..Default::default()
        }
        .mro_string_no_width(),
        "using (\n    mem_gb   = 1,\n    vmem_gb  = 4,\n    volatile = strict,\n)\n"
    );

    assert_eq!(
        MroUsing {
            threads: Some(2),
            ..Default::default()
        }
        .mro_string_with_width(8),
        "using (\n            threads = 2,\n        )\n"
    );
}

#[test]
fn test_mro_using_need_using() {
    assert_eq!(MroUsing::default().need_using(), false);
    assert_eq!(
        MroUsing {
            mem_gb: Some(1),
            ..Default::default()
        }
        .need_using(),
        true
    );
    assert_eq!(
        MroUsing {
            mem_gb: Some(1),
            threads: Some(3),
            ..Default::default()
        }
        .need_using(),
        true
    );
}

#[test]
fn primary_tokens_follow_the_table() {
    assert_eq!(Int.mro_string(None), "int");
    assert_eq!(Float.mro_string(None), "float");
    assert_eq!(Str.mro_string(None), "string");
    assert_eq!(Bool.mro_string(None), "bool");
    assert_eq!(Dict.mro_string(None), "map");
    assert_eq!(Path.mro_string(None), "path");
    assert_eq!(FileType("bam".into()).mro_string(None), "bam");
}

#[test]
fn width_under_minimum_is_refused() {
    assert_eq!(Int.try_mro_string(Some(2)), None);
    assert_eq!(Array(Int).try_mro_string(Some(4)), None);
    assert_eq!(Volatile::Strict.try_mro_string(Some(5)), None);
    assert_eq!(Int.try_mro_string(Some(3)), Some("int".to_string()));
    assert_eq!(Int.try_mro_string(None), Some("int".to_string()));
}

#[test]
fn padded_text_has_the_exact_width() {
    for w in 3..12usize {
        let s = Int.mro_string(Some(w));
        assert_eq!(s.len(), w);
        assert!(s.starts_with("int"));
        assert!(s[3..].chars().all(|c| c == ' '));
    }
    assert_eq!(Primary(Bool).mro_string(Some(6)).len(), 6);
}

#[test]
fn array_types_are_two_wider() {
    assert_eq!(Array(Str).mro_string_no_width(), "string[]");
    assert_eq!(Array(Str).min_width(), Str.min_width() + 2);
    assert_eq!(Array(FileType("fastq.gz".into())).min_width(), 10);
}

#[test]
fn using_with_no_resource_is_empty() {
    assert_eq!(MroUsing::default().mro_string_no_width(), "");
    assert_eq!(MroUsing::default().mro_string_with_width(8), "");
}

#[test]
fn using_key_column_follows_present_keys() {
    let u = MroUsing {
        mem_gb: Some(16),
        threads: Some(-2),
        ..Default::default()
    };
    assert_eq!(u.key_width(), 7);
    assert_eq!(
        u.mro_string_no_width(),
        "using (\n    mem_gb  = 16,\n    threads = -2,\n)\n"
    );
}

#[test]
fn using_scenario_with_one_resource() {
    let u = MroUsing {
        mem_gb: Some(1),
        ..Default::default()
    };
    assert_eq!(u.mro_string(None), "using (\n    mem_gb = 1,\n)\n");
}

#[test]
fn decimal_text_of_extremes() {
    assert_eq!(martian::using::decimal_string(0), "0");
    assert_eq!(martian::using::decimal_string(-32768), "-32768");
    assert_eq!(martian::using::decimal_string(32767), "32767");
    assert_eq!(martian::using::decimal_string(-7), "-7");
}

#[test]
fn volatile_parse_error_quotes_input() {
    assert_eq!(
        Volatile::parse("loose"),
        Err("Expected strict for volatile, Found loose".to_string())
    );
}
