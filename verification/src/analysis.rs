use vstd::prelude::*;

verus! {

/// Phase of the background orbit-analysis worker.
#[derive(Clone, Debug, PartialEq, Eq, Structural)]
pub enum AnalysisState {
    Sleeping,
    Calculating,
    Finished,
}

impl AnalysisState {
    /// The label shown for each phase.
    pub open spec fn label(&self) -> Seq<char> {
        match self {
            AnalysisState::Sleeping => "Sleeping"@,
            AnalysisState::Calculating => "Calculating"@,
            AnalysisState::Finished => "Finished"@,
        }
    }

    pub fn to_string(&self) -> (s: String)
        ensures
            s@ == self.label(),
    {
        match self {
            AnalysisState::Sleeping => "Sleeping".to_owned(),
            AnalysisState::Calculating => "Calculating".to_owned(),
            AnalysisState::Finished => "Finished".to_owned(),
        }
    }
}

} // verus!

verus! {

/// What the frame loop does to the analysis worker.
#[derive(Clone, Copy, Debug, PartialEq, Eq, Structural)]
pub enum ServiceCommand {
    /// Start the worker.
    Start,
    /// Stop the worker and forget its last result.
    StopAndClear,
    /// Leave the worker as it is.
    Keep,
}

/// The worker runs exactly while analysis is enabled and its window is open:
/// it is started when it should run and does not, and stopped (its result
/// cleared) when it runs and should not.
pub fn service_command(analysis_enabled: bool, window_open: bool, running: bool) -> (cmd:
    ServiceCommand)
    ensures
        cmd is Start <==> analysis_enabled && window_open && !running,
        cmd is StopAndClear <==> !(analysis_enabled && window_open) && running,
{
    if analysis_enabled && window_open {
        if !running {
            ServiceCommand::Start
        } else {
            ServiceCommand::Keep
        }
    } else {
        if running {
            ServiceCommand::StopAndClear
        } else {
            ServiceCommand::Keep
        }
    }
}

} // verus!
