//! Declarations of Martian stage interfaces.
//!
//! The library models the Martian type system, maps native Rust types onto
//! it, validates field names and renders column-aligned stage declarations.
use vstd::prelude::*;

pub mod text;
pub mod types;
pub mod field;
pub mod using;
pub mod stage;
pub mod header;
pub mod laws;

pub use field::{MartianStruct, MartianVoid, MroField};
pub use header::{check_destination, make_mro_string, DestinationError, FiletypeHeader};
pub use stage::{merge_chunk_outputs, ChunkOutputClash, MakeMro, StageMro, StageVariables};
pub use text::MroDisplay;
pub use using::{MroUsing, Volatile};
pub use types::{AsMartianPrimaryType, AsMartianType, MartianPrimaryType, MartianType};

verus! {

/// The phases in which a stage runs.
#[derive(Debug, Clone, Copy, PartialEq, Eq)]
pub enum StagePhase {
    Split,
    Main,
    Join,
}

impl StagePhase {
    /// The phase that the pipeline names `split`, `main` or `join`; any
    /// other name is no phase.
    pub fn from_stage_type(stage_type: &str) -> (r: Option<StagePhase>)
        ensures
            r matches Some(StagePhase::Split) <==> stage_type@ == "split"@,
            r matches Some(StagePhase::Main) <==> stage_type@ == "main"@,
            r matches Some(StagePhase::Join) <==> stage_type@ == "join"@,
            r is None <==> (stage_type@ != "split"@ && stage_type@ != "main"@ && stage_type@
                != "join"@),
    {
        proof {
            reveal_strlit("split");
            reveal_strlit("main");
            reveal_strlit("join");
            assert("split"@[0] == 's' && "main"@[0] == 'm' && "join"@[0] == 'j');
        }
        let t = stage_type.to_owned();
        if t == String::from_str("split") {
            Some(StagePhase::Split)
        } else if t == String::from_str("main") {
            Some(StagePhase::Main)
        } else if t == String::from_str("join") {
            Some(StagePhase::Join)
        } else {
            None
        }
    }
}

/// The ways a stage can fail.
#[derive(Debug)]
pub enum StageError {
    /// A controlled stop, for a known condition in the data or the
    /// configuration.
    MartianExit { message: String },
    /// An unexpected error.
    PipelineError { message: String },
}

impl StageError {
    /// The message that the error carries.
    pub open spec fn spec_message(&self) -> Seq<char> {
        match self {
            StageError::MartianExit { message } => message@,
            StageError::PipelineError { message } => message@,
        }
    }

    /// The report that the pipeline receives for the error.
    pub fn report(&self) -> (r: String)
        ensures
            r@ == "ASSERT: "@ + self.spec_message(),
    {
        let mut r = String::from_str("ASSERT: ");
        match self {
            StageError::MartianExit { message } => r.append(message.as_str()),
            StageError::PipelineError { message } => r.append(message.as_str()),
        }
        r
    }
}

} // verus!
