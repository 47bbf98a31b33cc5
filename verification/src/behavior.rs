use vstd::prelude::*;
use crate::common::AnalysisError;
use crate::common::outcome_view;
use crate::common::Report;
use crate::common::ReportSpec;
use crate::common::texts;

verus! {

/// The kinds of behavior, by which a group of them is selected.
#[derive(Debug, Clone, Copy, PartialEq, Eq, Structural)]
pub enum BehaviorType {
    Url,
    UrlCount,
    TimeSlot,
    Daily,
    Extensions,
    FileMetadata,
    UserInteractions,
    MessageStats,
    Diffusion,
    Shares,
    TextStats,
}

/// What a behavior needs of the entry at its path before it can run.
#[derive(Debug, Clone, Copy, PartialEq, Eq, Structural)]
pub enum Reads {
    /// Nothing is read.
    Nothing,
    /// The lines of a text file.
    Lines,
    /// The bytes of a file.
    Bytes,
}

/// What was found at the path of a behavior.
#[derive(Debug, Clone, PartialEq, Eq)]
pub enum Input {
    /// No regular file, or nothing was read.
    Missing,
    /// The lines of a text file, without their line ends.
    Lines(Vec<String>),
    /// The bytes of a file.
    Bytes(Vec<u8>),
}

/// The mathematical value of an [`Input`].
pub enum InputSpec {
    Missing,
    Lines(Seq<Seq<char>>),
    Bytes(Seq<u8>),
}

impl View for Input {
    type V = InputSpec;

    open spec fn view(&self) -> InputSpec {
        match self {
            Input::Missing => InputSpec::Missing,
            Input::Lines(lines) => InputSpec::Lines(texts(lines@)),
            Input::Bytes(bytes) => InputSpec::Bytes(bytes@),
        }
    }
}

impl InputSpec {
    /// The lines that a line-oriented analysis finds: none unless lines were read.
    pub open spec fn lines(self) -> Option<Seq<Seq<char>>> {
        match self {
            InputSpec::Lines(lines) => Some(lines),
            _ => None,
        }
    }

    /// The bytes that a document analysis finds: none unless bytes were read.
    pub open spec fn bytes(self) -> Option<Seq<u8>> {
        match self {
            InputSpec::Bytes(bytes) => Some(bytes),
            _ => None,
        }
    }
}

/// What every analysis has in common: a kind to select it by, and a run that turns what
/// was found at its path into a report or a failure.
pub trait Behavior {
    /// The kind of this behavior.
    spec fn kind(&self) -> BehaviorType;

    /// What this behavior reads.
    spec fn needs(&self) -> Reads;

    /// The path of the entry that this behavior works on.
    spec fn source(&self) -> Seq<char>;

    /// The output configuration is complete: a file format has its destination directory.
    spec fn configured(&self) -> bool;

    /// `out` is what a run on `input` yields.
    spec fn yields(&self, input: InputSpec, out: Result<ReportSpec, AnalysisError>) -> bool;

    /// `out` is what a failure with `error` of a run on `input` tells the user.
    spec fn explains(&self, input: InputSpec, error: AnalysisError, out: Seq<char>) -> bool;

    fn behavior_type(&self) -> (out: BehaviorType)
        ensures
            out == self.kind(),
    ;

    fn reads(&self) -> (out: Reads)
        ensures
            out == self.needs(),
    ;

    fn input_path(&self) -> (out: &str)
        ensures
            out@ == self.source(),
    ;

    /// Checks the output configuration. Nothing is read or written.
    fn validate(&self) -> (out: Result<(), AnalysisError>)
        ensures
            out == if self.configured() {
                Ok::<(), AnalysisError>(())
            } else {
                Err::<(), AnalysisError>(AnalysisError::ValidationError)
            },
    ;

    /// Runs the analysis on what was found at its path.
    fn run(&self, input: &Input) -> (out: Result<Report, AnalysisError>)
        ensures
            self.yields(input@, outcome_view(out)),
    ;

    /// Says what a failure of a run on `input` tells the user.
    fn explain(&self, input: &Input, error: AnalysisError) -> (out: String)
        ensures
            self.explains(input@, error, out@),
    ;
}

} // verus!
