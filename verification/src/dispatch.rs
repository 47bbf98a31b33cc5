use vstd::prelude::*;
use vstd::string::StringExecFns;
use crate::behavior::Behavior;
use crate::behavior::BehaviorType;
use crate::behavior::Input;
use crate::behavior::InputSpec;
use crate::behavior::Reads;
use crate::behaviors::count_daily::CountDaily;
use crate::behaviors::count_time_slots::CountTimeSlots;
use crate::behaviors::count_urls::CountUrls;
use crate::behaviors::diffusion::Diffusion;
use crate::behaviors::extract_urls::ExtractUrls;
use crate::behaviors::file_metadata::FileMetadata;
use crate::behaviors::list_extensions::ListExtensions;
use crate::behaviors::message_stats::MessageStats;
use crate::behaviors::shares::Shares;
use crate::behaviors::text_stats::TextStats;
use crate::behaviors::user_interactions::UserInteractions;
use crate::common::AnalysisError;
use crate::common::OutputFormat;
use crate::common::Report;
use crate::common::ReportSpec;

verus! {

/// One of the behaviors, whichever it is.
pub enum AnyBehavior {
    ExtractUrls(ExtractUrls),
    CountUrls(CountUrls),
    CountTimeSlots(CountTimeSlots),
    CountDaily(CountDaily),
    ListExtensions(ListExtensions),
    FileMetadata(FileMetadata),
    UserInteractions(UserInteractions),
    MessageStats(MessageStats),
    Diffusion(Diffusion),
    Shares(Shares),
    TextStats(TextStats),
}

impl AnyBehavior {
    /// The behavior held writes to the console.
    pub open spec fn to_console(&self) -> bool {
        match self {
            AnyBehavior::CountUrls(b) => b.format == OutputFormat::Stdout && b.output_dir is None,
            AnyBehavior::CountTimeSlots(b) => b.format == OutputFormat::Stdout
                && b.output_dir is None,
            _ => true,
        }
    }
}

impl Behavior for AnyBehavior {
    open spec fn kind(&self) -> BehaviorType {
        match self {
            AnyBehavior::ExtractUrls(b) => b.kind(),
            AnyBehavior::CountUrls(b) => b.kind(),
            AnyBehavior::CountTimeSlots(b) => b.kind(),
            AnyBehavior::CountDaily(b) => b.kind(),
            AnyBehavior::ListExtensions(b) => b.kind(),
            AnyBehavior::FileMetadata(b) => b.kind(),
            AnyBehavior::UserInteractions(b) => b.kind(),
            AnyBehavior::MessageStats(b) => b.kind(),
            AnyBehavior::Diffusion(b) => b.kind(),
            AnyBehavior::Shares(b) => b.kind(),
            AnyBehavior::TextStats(b) => b.kind(),
        }
    }

    open spec fn needs(&self) -> Reads {
        match self {
            AnyBehavior::ExtractUrls(b) => b.needs(),
            AnyBehavior::CountUrls(b) => b.needs(),
            AnyBehavior::CountTimeSlots(b) => b.needs(),
            AnyBehavior::CountDaily(b) => b.needs(),
            AnyBehavior::ListExtensions(b) => b.needs(),
            AnyBehavior::FileMetadata(b) => b.needs(),
            AnyBehavior::UserInteractions(b) => b.needs(),
            AnyBehavior::MessageStats(b) => b.needs(),
            AnyBehavior::Diffusion(b) => b.needs(),
            AnyBehavior::Shares(b) => b.needs(),
            AnyBehavior::TextStats(b) => b.needs(),
        }
    }

    open spec fn source(&self) -> Seq<char> {
        match self {
            AnyBehavior::ExtractUrls(b) => b.source(),
            AnyBehavior::CountUrls(b) => b.source(),
            AnyBehavior::CountTimeSlots(b) => b.source(),
            AnyBehavior::CountDaily(b) => b.source(),
            AnyBehavior::ListExtensions(b) => b.source(),
            AnyBehavior::FileMetadata(b) => b.source(),
            AnyBehavior::UserInteractions(b) => b.source(),
            AnyBehavior::MessageStats(b) => b.source(),
            AnyBehavior::Diffusion(b) => b.source(),
            AnyBehavior::Shares(b) => b.source(),
            AnyBehavior::TextStats(b) => b.source(),
        }
    }

    open spec fn configured(&self) -> bool {
        match self {
            AnyBehavior::ExtractUrls(b) => b.configured(),
            AnyBehavior::CountUrls(b) => b.configured(),
            AnyBehavior::CountTimeSlots(b) => b.configured(),
            AnyBehavior::CountDaily(b) => b.configured(),
            AnyBehavior::ListExtensions(b) => b.configured(),
            AnyBehavior::FileMetadata(b) => b.configured(),
            AnyBehavior::UserInteractions(b) => b.configured(),
            AnyBehavior::MessageStats(b) => b.configured(),
            AnyBehavior::Diffusion(b) => b.configured(),
            AnyBehavior::Shares(b) => b.configured(),
            AnyBehavior::TextStats(b) => b.configured(),
        }
    }

    open spec fn yields(&self, input: InputSpec, out: Result<ReportSpec, AnalysisError>) -> bool {
        match self {
            AnyBehavior::ExtractUrls(b) => b.yields(input, out),
            AnyBehavior::CountUrls(b) => b.yields(input, out),
            AnyBehavior::CountTimeSlots(b) => b.yields(input, out),
            AnyBehavior::CountDaily(b) => b.yields(input, out),
            AnyBehavior::ListExtensions(b) => b.yields(input, out),
            AnyBehavior::FileMetadata(b) => b.yields(input, out),
            AnyBehavior::UserInteractions(b) => b.yields(input, out),
            AnyBehavior::MessageStats(b) => b.yields(input, out),
            AnyBehavior::Diffusion(b) => b.yields(input, out),
            AnyBehavior::Shares(b) => b.yields(input, out),
            AnyBehavior::TextStats(b) => b.yields(input, out),
        }
    }

    open spec fn explains(&self, input: InputSpec, error: AnalysisError, out: Seq<char>) -> bool {
        match self {
            AnyBehavior::ExtractUrls(b) => b.explains(input, error, out),
            AnyBehavior::CountUrls(b) => b.explains(input, error, out),
            AnyBehavior::CountTimeSlots(b) => b.explains(input, error, out),
            AnyBehavior::CountDaily(b) => b.explains(input, error, out),
            AnyBehavior::ListExtensions(b) => b.explains(input, error, out),
            AnyBehavior::FileMetadata(b) => b.explains(input, error, out),
            AnyBehavior::UserInteractions(b) => b.explains(input, error, out),
            AnyBehavior::MessageStats(b) => b.explains(input, error, out),
            AnyBehavior::Diffusion(b) => b.explains(input, error, out),
            AnyBehavior::Shares(b) => b.explains(input, error, out),
            AnyBehavior::TextStats(b) => b.explains(input, error, out),
        }
    }

    fn behavior_type(&self) -> (out: BehaviorType) {
        match self {
            AnyBehavior::ExtractUrls(b) => b.behavior_type(),
            AnyBehavior::CountUrls(b) => b.behavior_type(),
            AnyBehavior::CountTimeSlots(b) => b.behavior_type(),
            AnyBehavior::CountDaily(b) => b.behavior_type(),
            AnyBehavior::ListExtensions(b) => b.behavior_type(),
            AnyBehavior::FileMetadata(b) => b.behavior_type(),
            AnyBehavior::UserInteractions(b) => b.behavior_type(),
            AnyBehavior::MessageStats(b) => b.behavior_type(),
            AnyBehavior::Diffusion(b) => b.behavior_type(),
            AnyBehavior::Shares(b) => b.behavior_type(),
            AnyBehavior::TextStats(b) => b.behavior_type(),
        }
    }

    fn reads(&self) -> (out: Reads) {
        match self {
            AnyBehavior::ExtractUrls(b) => b.reads(),
            AnyBehavior::CountUrls(b) => b.reads(),
            AnyBehavior::CountTimeSlots(b) => b.reads(),
            AnyBehavior::CountDaily(b) => b.reads(),
            AnyBehavior::ListExtensions(b) => b.reads(),
            AnyBehavior::FileMetadata(b) => b.reads(),
            AnyBehavior::UserInteractions(b) => b.reads(),
            AnyBehavior::MessageStats(b) => b.reads(),
            AnyBehavior::Diffusion(b) => b.reads(),
            AnyBehavior::Shares(b) => b.reads(),
            AnyBehavior::TextStats(b) => b.reads(),
        }
    }

    fn input_path(&self) -> (out: &str) {
        match self {
            AnyBehavior::ExtractUrls(b) => b.input_path(),
            AnyBehavior::CountUrls(b) => b.input_path(),
            AnyBehavior::CountTimeSlots(b) => b.input_path(),
            AnyBehavior::CountDaily(b) => b.input_path(),
            AnyBehavior::ListExtensions(b) => b.input_path(),
            AnyBehavior::FileMetadata(b) => b.input_path(),
            AnyBehavior::UserInteractions(b) => b.input_path(),
            AnyBehavior::MessageStats(b) => b.input_path(),
            AnyBehavior::Diffusion(b) => b.input_path(),
            AnyBehavior::Shares(b) => b.input_path(),
            AnyBehavior::TextStats(b) => b.input_path(),
        }
    }

    fn validate(&self) -> (out: Result<(), AnalysisError>) {
        match self {
            AnyBehavior::ExtractUrls(b) => b.validate(),
            AnyBehavior::CountUrls(b) => b.validate(),
            AnyBehavior::CountTimeSlots(b) => b.validate(),
            AnyBehavior::CountDaily(b) => b.validate(),
            AnyBehavior::ListExtensions(b) => b.validate(),
            AnyBehavior::FileMetadata(b) => b.validate(),
            AnyBehavior::UserInteractions(b) => b.validate(),
            AnyBehavior::MessageStats(b) => b.validate(),
            AnyBehavior::Diffusion(b) => b.validate(),
            AnyBehavior::Shares(b) => b.validate(),
            AnyBehavior::TextStats(b) => b.validate(),
        }
    }

    /// Runs the behavior held.
    fn run(&self, input: &Input) -> (out: Result<Report, AnalysisError>) {
        match self {
            AnyBehavior::ExtractUrls(b) => b.run(input),
            AnyBehavior::CountUrls(b) => b.run(input),
            AnyBehavior::CountTimeSlots(b) => b.run(input),
            AnyBehavior::CountDaily(b) => b.run(input),
            AnyBehavior::ListExtensions(b) => b.run(input),
            AnyBehavior::FileMetadata(b) => b.run(input),
            AnyBehavior::UserInteractions(b) => b.run(input),
            AnyBehavior::MessageStats(b) => b.run(input),
            AnyBehavior::Diffusion(b) => b.run(input),
            AnyBehavior::Shares(b) => b.run(input),
            AnyBehavior::TextStats(b) => b.run(input),
        }
    }

    fn explain(&self, input: &Input, error: AnalysisError) -> (out: String) {
        match self {
            AnyBehavior::ExtractUrls(b) => b.explain(input, error),
            AnyBehavior::CountUrls(b) => b.explain(input, error),
            AnyBehavior::CountTimeSlots(b) => b.explain(input, error),
            AnyBehavior::CountDaily(b) => b.explain(input, error),
            AnyBehavior::ListExtensions(b) => b.explain(input, error),
            AnyBehavior::FileMetadata(b) => b.explain(input, error),
            AnyBehavior::UserInteractions(b) => b.explain(input, error),
            AnyBehavior::MessageStats(b) => b.explain(input, error),
            AnyBehavior::Diffusion(b) => b.explain(input, error),
            AnyBehavior::Shares(b) => b.explain(input, error),
            AnyBehavior::TextStats(b) => b.explain(input, error),
        }
    }
}

/// The kinds of behavior in the order in which a batch runs them.
pub open spec fn declared_order() -> Seq<BehaviorType> {
    seq![
        BehaviorType::Url,
        BehaviorType::UrlCount,
        BehaviorType::TimeSlot,
        BehaviorType::Daily,
        BehaviorType::Extensions,
        BehaviorType::FileMetadata,
        BehaviorType::UserInteractions,
        BehaviorType::MessageStats,
        BehaviorType::Diffusion,
        BehaviorType::Shares,
        BehaviorType::TextStats,
    ]
}

/// The path that a behavior of `kind` works on, among the three of a batch.
pub open spec fn path_for(kind: BehaviorType, json: Seq<char>, folder: Seq<char>, file: Seq<char>) -> Seq<
    char,
> {
    match kind {
        BehaviorType::Extensions => folder,
        BehaviorType::FileMetadata => file,
        _ => json,
    }
}

/// One behavior of every kind, in the declared order, each on the path of its sort.
/// The two counts write to the console.
pub fn all_behaviors(json: &str, folder: &str, file: &str) -> (out: Vec<AnyBehavior>)
    ensures
        out@.len() == declared_order().len(),
        forall|i: int|
            0 <= i < out@.len() ==> {
                &&& (#[trigger] out@[i]).kind() == declared_order()[i]
                &&& out@[i].source() == path_for(out@[i].kind(), json@, folder@, file@)
                &&& out@[i].to_console()
            },
{
    let mut out: Vec<AnyBehavior> = Vec::new();
    out.push(AnyBehavior::ExtractUrls(ExtractUrls::new(String::from_str(json))));
    out.push(
        AnyBehavior::CountUrls(
            CountUrls::new(String::from_str(json), None, Some(OutputFormat::Stdout)),
        ),
    );
    out.push(
        AnyBehavior::CountTimeSlots(
            CountTimeSlots::new(String::from_str(json), None, Some(OutputFormat::Stdout)),
        ),
    );
    out.push(AnyBehavior::CountDaily(CountDaily::new(String::from_str(json))));
    out.push(AnyBehavior::ListExtensions(ListExtensions::new(String::from_str(folder))));
    out.push(AnyBehavior::FileMetadata(FileMetadata::new(String::from_str(file))));
    out.push(AnyBehavior::UserInteractions(UserInteractions::new(String::from_str(json))));
    out.push(AnyBehavior::MessageStats(MessageStats::new(String::from_str(json))));
    out.push(AnyBehavior::Diffusion(Diffusion::new(String::from_str(json))));
    out.push(AnyBehavior::Shares(Shares::new(String::from_str(json))));
    out.push(AnyBehavior::TextStats(TextStats::new(String::from_str(json))));
    out
}

/// What a batch does next.
#[derive(Debug, Clone, Copy, PartialEq, Eq, Structural)]
pub enum BatchStep {
    /// Run the behavior at this index and report its outcome.
    Run(usize),
    /// Every selected behavior ran to completion.
    Finished,
    /// The behavior at this index failed; the rest is not run.
    Failed(usize, AnalysisError),
}

/// A sequence of behaviors to run in order, all of them or those of one kind.
pub struct Batch {
    pub behaviors: Vec<AnyBehavior>,
    pub only: Option<BehaviorType>,
}

impl Batch {
    /// The behavior at index `i` belongs to the run.
    pub open spec fn selects(&self, i: int) -> bool {
        &&& 0 <= i < self.behaviors@.len()
        &&& match self.only {
            Some(kind) => self.behaviors@[i].kind() == kind,
            None => true,
        }
    }

    /// `next` is the first selected index from `from` on, if there is one.
    pub open spec fn first_selected(&self, from: int, next: Option<usize>) -> bool {
        match next {
            Some(i) => from <= i && self.selects(i as int) && forall|k: int|
                from <= k < i ==> !self.selects(k),
            None => forall|k: int| from <= k ==> !self.selects(k),
        }
    }

    /// The step after `outcome` of the behavior at `ran`: a failure ends the batch with
    /// its error; after a success the next selected behavior runs, if there is one.
    pub open spec fn follows(&self, ran: int, outcome: Result<(), AnalysisError>, step: BatchStep) -> bool {
        match outcome {
            Err(e) => step == BatchStep::Failed(ran as usize, e),
            Ok(_) => match step {
                BatchStep::Run(i) => self.first_selected(ran + 1, Some(i)),
                BatchStep::Finished => self.first_selected(ran + 1, None),
                BatchStep::Failed(_, _) => false,
            },
        }
    }

    /// A batch of all the behaviors, or of those of one kind.
    pub fn new(behaviors: Vec<AnyBehavior>, only: Option<BehaviorType>) -> (out: Self)
        ensures
            out.behaviors == behaviors,
            out.only == only,
    {
        Batch { behaviors, only }
    }

    /// Finds the first selected behavior from `from` on.
    pub fn next_to_run(&self, from: usize) -> (out: Option<usize>)
        ensures
            self.first_selected(from as int, out),
    {
        let mut i: usize = from;
        while i < self.behaviors.len()
            invariant
                from <= i,
                forall|k: int| from <= k < i ==> !self.selects(k),
            decreases self.behaviors.len() - i,
        {
            let chosen = match self.only {
                Some(kind) => self.behaviors[i].behavior_type() == kind,
                None => true,
            };
            if chosen {
                return Some(i);
            }
            i += 1;
        }
        None
    }

    /// The first step of the batch.
    pub fn start(&self) -> (out: BatchStep)
        ensures
            match out {
                BatchStep::Run(i) => self.first_selected(0, Some(i)),
                BatchStep::Finished => self.first_selected(0, None),
                BatchStep::Failed(_, _) => false,
            },
    {
        match self.next_to_run(0) {
            Some(i) => BatchStep::Run(i),
            None => BatchStep::Finished,
        }
    }

    /// The step after the behavior at `ran` has given `outcome`.
    pub fn advance(&self, ran: usize, outcome: Result<(), AnalysisError>) -> (out: BatchStep)
        ensures
            self.follows(ran as int, outcome, out),
    {
        match outcome {
            Err(e) => BatchStep::Failed(ran, e),
            Ok(_) => {
                if ran >= self.behaviors.len() {
                    BatchStep::Finished
                } else {
                    match self.next_to_run(ran + 1) {
                        Some(i) => BatchStep::Run(i),
                        None => BatchStep::Finished,
                    }
                }
            },
        }
    }
}

} // verus!
