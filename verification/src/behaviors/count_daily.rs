use vstd::prelude::*;
use crate::behavior::Behavior;
use crate::behavior::BehaviorType;
use crate::behavior::Input;
use crate::behavior::InputSpec;
use crate::behavior::Reads;
use crate::common::AnalysisError;
use crate::common::describe;
use crate::common::description;
use crate::common::notice_report;
use crate::common::Report;
use crate::common::ReportSpec;
use crate::common::write_notice;

verus! {

/// Counts events per day.
/// The analysis itself is not written yet: running it gives a notice.
pub struct CountDaily {
    pub json_path: String,
}

impl CountDaily {
    /// A daily count on the chat export at `json_path`.
    pub fn new(json_path: String) -> (out: Self)
        ensures
            out.json_path == json_path,
    {
        CountDaily { json_path }
    }

    /// The opening of the notice, up to the path.
    pub open spec fn notice_prefix() -> Seq<char> {
        "CountDaily: would count daily events in \""@
    }

    /// The rest of the notice, after the path.
    pub open spec fn notice_suffix() -> Seq<char> {
        "\"..."@
    }
}

impl Behavior for CountDaily {
    open spec fn kind(&self) -> BehaviorType {
        BehaviorType::Daily
    }

    open spec fn needs(&self) -> Reads {
        Reads::Nothing
    }

    open spec fn source(&self) -> Seq<char> {
        self.json_path@
    }

    open spec fn configured(&self) -> bool {
        true
    }

    open spec fn yields(&self, input: InputSpec, out: Result<ReportSpec, AnalysisError>) -> bool {
        out == Ok::<_, AnalysisError>(
            notice_report(Self::notice_prefix(), self.json_path@, Self::notice_suffix()),
        )
    }

    open spec fn explains(&self, input: InputSpec, error: AnalysisError, out: Seq<char>) -> bool {
        out == description(error, self.source())
    }

    fn behavior_type(&self) -> (out: BehaviorType) {
        BehaviorType::Daily
    }

    fn reads(&self) -> (out: Reads) {
        Reads::Nothing
    }

    fn input_path(&self) -> (out: &str) {
        self.json_path.as_str()
    }

    fn validate(&self) -> (out: Result<(), AnalysisError>) {
        Ok(())
    }

    /// Succeeds with the notice, which names the path, for the console, whatever the
    /// input.
    fn run(&self, input: &Input) -> (out: Result<Report, AnalysisError>) {
        Ok(write_notice("CountDaily: would count daily events in \"", self.json_path.as_str(), "\"..."))
    }

    fn explain(&self, input: &Input, error: AnalysisError) -> (out: String) {
        describe(error, self.json_path.as_str())
    }
}

} // verus!
