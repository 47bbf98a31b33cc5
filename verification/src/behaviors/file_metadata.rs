use vstd::prelude::*;
use crate::behavior::Behavior;
use crate::behavior::BehaviorType;
use crate::behavior::Input;
use crate::behavior::InputSpec;
use crate::behavior::Reads;
use crate::common::AnalysisError;
use crate::common::describe;
use crate::common::description;
use crate::common::notice_report;
use crate::common::Report;
use crate::common::ReportSpec;
use crate::common::write_notice;

verus! {

/// Reads the name, format and size of a single file.
/// The analysis itself is not written yet: running it gives a notice.
pub struct FileMetadata {
    pub file_path: String,
}

impl FileMetadata {
    /// A metadata reading of the file at `file_path`.
    pub fn new(file_path: String) -> (out: Self)
        ensures
            out.file_path == file_path,
    {
        FileMetadata { file_path }
    }

    /// The opening of the notice, up to the path.
    pub open spec fn notice_prefix() -> Seq<char> {
        "FileMetadata: would inspect file \""@
    }

    /// The rest of the notice, after the path.
    pub open spec fn notice_suffix() -> Seq<char> {
        "\" to get name, format, size..."@
    }
}

impl Behavior for FileMetadata {
    open spec fn kind(&self) -> BehaviorType {
        BehaviorType::FileMetadata
    }

    open spec fn needs(&self) -> Reads {
        Reads::Nothing
    }

    open spec fn source(&self) -> Seq<char> {
        self.file_path@
    }

    open spec fn configured(&self) -> bool {
        true
    }

    open spec fn yields(&self, input: InputSpec, out: Result<ReportSpec, AnalysisError>) -> bool {
        out == Ok::<_, AnalysisError>(
            notice_report(Self::notice_prefix(), self.file_path@, Self::notice_suffix()),
        )
    }

    open spec fn explains(&self, input: InputSpec, error: AnalysisError, out: Seq<char>) -> bool {
        out == description(error, self.source())
    }

    fn behavior_type(&self) -> (out: BehaviorType) {
        BehaviorType::FileMetadata
    }

    fn reads(&self) -> (out: Reads) {
        Reads::Nothing
    }

    fn input_path(&self) -> (out: &str) {
        self.file_path.as_str()
    }

    fn validate(&self) -> (out: Result<(), AnalysisError>) {
        Ok(())
    }

    /// Succeeds with the notice, which names the path, for the console, whatever the
    /// input.
    fn run(&self, input: &Input) -> (out: Result<Report, AnalysisError>) {
        Ok(write_notice("FileMetadata: would inspect file \"", self.file_path.as_str(), "\" to get name, format, size..."))
    }

    fn explain(&self, input: &Input, error: AnalysisError) -> (out: String) {
        describe(error, self.file_path.as_str())
    }
}

} // verus!
