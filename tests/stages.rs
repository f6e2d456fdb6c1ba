use martian::MartianPrimaryType::{Bool, FileType, Int, Str};
use martian::MartianType::{Array, Primary};
use martian::{
    check_destination, make_mro_string, DestinationError, FiletypeHeader, MroDisplay, MroField,
    MroUsing, StageError, StageMro, StageVariables, Volatile,
};

fn sort_items_variables() -> StageVariables {
    StageVariables {
        stage_inputs: vec![
            MroField::new("unsorted", Array(Int)),
            MroField::new("reverse", Primary(Bool)),
        ],
        stage_outputs: vec![MroField::new("sorted", Array(Int))],
        chunk_inputs: None,
        chunk_outputs: None,
    }
}

#[test]
fn stage_block_without_split_or_using() {
    let s = StageMro::new(
        "SORT_ITEMS".to_string(),
        "my_stage".to_string(),
        "sort_items".to_string(),
        sort_items_variables(),
        MroUsing::default(),
    );
    assert_eq!(
        s.mro_string_no_width(),
        "stage SORT_ITEMS(\n    in  int[] unsorted,\n    in  bool  reverse,\n    out int[] sorted,\n    src comp \"my_stage martian sort_items\",\n)\n"
    );
}

#[test]
fn stage_block_with_split_and_using() {
    let vars = StageVariables {
        stage_inputs: vec![MroField::new("reads", Primary(FileType("fastq".into())))],
        stage_outputs: vec![MroField::new("count", Primary(Int))],
        chunk_inputs: Some(vec![MroField::new("chunk", Primary(Str))]),
        chunk_outputs: Some(vec![MroField::new("partial", Array(Int))]),
    };
    let using = MroUsing {
        mem_gb: Some(4),
        threads: Some(16),
        volatile: Some(Volatile::Strict),
        ..Default::default()
    };
    let s = StageMro::new(
        "COUNT".to_string(),
        "adapter".to_string(),
        "count".to_string(),
        vars,
        using,
    );
    assert_eq!(
        s.mro_string_no_width(),
        "stage COUNT(\n    in  fastq  reads,\n    out int    count,\n    src comp \"adapter martian count\",\n) split (\n    in  string chunk,\n    out int[]  partial,\n) using (\n    mem_gb   = 4,\n    threads  = 16,\n    volatile = strict,\n)\n"
    );
}

#[test]
fn stage_variables_share_one_type_column() {
    let vars = StageVariables {
        stage_inputs: vec![MroField::new("a", Primary(Int))],
        stage_outputs: vec![MroField::new("b", Primary(Bool))],
        chunk_inputs: Some(vec![]),
        chunk_outputs: Some(vec![MroField::new("c", Array(Str))]),
    };
    assert_eq!(vars.type_column_width(), 8);
    assert_eq!(
        vars.mro_string_no_width(),
        "(\n    in  int      a,\n    out bool     b,\n) split (\n    out string[] c,\n)\n"
    );
    assert_eq!(
        vars.mro_string_with_width(2),
        "(\n      in  int      a,\n      out bool     b,\n  ) split (\n      out string[] c,\n  )\n"
    );
}

#[test]
fn filetype_header_dedups_in_first_seen_order() {
    let a = StageMro::new(
        "A".to_string(),
        "ad".to_string(),
        "a".to_string(),
        StageVariables {
            stage_inputs: vec![
                MroField::new("x", Primary(FileType("bam".into()))),
                MroField::new("y", Array(FileType("txt".into()))),
            ],
            stage_outputs: vec![MroField::new("z", Primary(FileType("bam".into())))],
            chunk_inputs: None,
            chunk_outputs: Some(vec![MroField::new("w", Primary(FileType("csv".into())))]),
        },
        MroUsing::default(),
    );
    let mut header = FiletypeHeader::new();
    header.add_stage(&a);
    header.add_stage(&a);
    assert_eq!(
        header.header_string(),
        "filetype bam;\nfiletype txt;\nfiletype csv;\n\n"
    );
    assert_eq!(FiletypeHeader::new().header_string(), "");
}

#[test]
fn batch_text_is_banner_header_and_stages() {
    let a = StageMro::new(
        "A".to_string(),
        "ad".to_string(),
        "a".to_string(),
        StageVariables {
            stage_inputs: vec![MroField::new("x", Primary(FileType("bam".into())))],
            stage_outputs: vec![],
            chunk_inputs: None,
            chunk_outputs: None,
        },
        MroUsing::default(),
    );
    let text = make_mro_string(&vec![a]);
    assert_eq!(
        text,
        format!(
            "{}filetype bam;\n\nstage A(\n    in  bam x,\n    src comp \"ad martian a\",\n)\n\n",
            martian::header::MRO_HEADER
        )
    );
}

#[test]
fn batch_rendering_is_idempotent() {
    let build = || {
        vec![
            StageMro::new(
                "SORT_ITEMS".to_string(),
                "my_stage".to_string(),
                "sort_items".to_string(),
                sort_items_variables(),
                MroUsing {
                    mem_gb: Some(1),
                    ..Default::default()
                },
            ),
        ]
    };
    let batch = build();
    assert_eq!(make_mro_string(&batch), make_mro_string(&batch));
    assert_eq!(make_mro_string(&batch), make_mro_string(&build()));
}

#[test]
fn directory_destination_is_refused() {
    assert_eq!(
        check_destination(true, true, true),
        Err(DestinationError::IsDirectory)
    );
    assert_eq!(
        check_destination(true, true, false),
        Err(DestinationError::IsDirectory)
    );
}

#[test]
fn existing_file_needs_rewrite() {
    assert_eq!(
        check_destination(false, true, false),
        Err(DestinationError::ExistsWithoutRewrite)
    );
    assert_eq!(check_destination(false, true, true), Ok(()));
    assert_eq!(check_destination(false, false, false), Ok(()));
}

#[test]
fn stage_error_report_carries_message() {
    let e = StageError::MartianExit {
        message: "bad input".to_string(),
    };
    assert_eq!(e.report(), "ASSERT: bad input");
    let e = StageError::PipelineError {
        message: "boom".to_string(),
    };
    assert_eq!(e.report(), "ASSERT: boom");
}

#[test]
fn chunk_outputs_matching_stage_outputs_are_dropped() {
    let stage_outs = vec![
        MroField::new("sorted", Array(Int)),
        MroField::new("summary", Primary(FileType("json".into()))),
    ];
    let chunk_outs = vec![
        MroField::new("summary", Primary(FileType("json".into()))),
        MroField::new("partial", Array(Int)),
    ];
    let kept = martian::merge_chunk_outputs(&stage_outs, &chunk_outs).unwrap();
    assert_eq!(kept, vec![MroField::new("partial", Array(Int))]);
}

#[test]
fn chunk_output_with_other_type_is_refused() {
    let stage_outs = vec![MroField::new("sorted", Array(Int))];
    let chunk_outs = vec![
        MroField::new("partial", Primary(Int)),
        MroField::new("sorted", Primary(Int)),
    ];
    assert_eq!(
        martian::merge_chunk_outputs(&stage_outs, &chunk_outs),
        Err(martian::ChunkOutputClash {
            name: "sorted".to_string()
        })
    );
}

#[test]
fn stage_types_name_phases() {
    assert_eq!(martian::StagePhase::from_stage_type("split"), Some(martian::StagePhase::Split));
    assert_eq!(martian::StagePhase::from_stage_type("main"), Some(martian::StagePhase::Main));
    assert_eq!(martian::StagePhase::from_stage_type("join"), Some(martian::StagePhase::Join));
    assert_eq!(martian::StagePhase::from_stage_type("chunk"), None);
    assert_eq!(martian::StagePhase::from_stage_type(""), None);
}
