use vstd::prelude::*;
use crate::common::text::owned;
use crate::modules::env::{IniterError, IniterErrorView};

verus! {

/// Why the provisioning job could not run.
#[derive(Debug, PartialEq, Eq)]
pub enum DataspaceInitError {
    MissingArgumentsError,
}

impl DataspaceInitError {
    /// The text the error displays.
    pub fn message(&self) -> (r: String)
        ensures
            r@ == "Missing arguments"@,
    {
        owned("Missing arguments")
    }
}

/// The arguments of the job that provisions a dataspace's warehouse.
#[derive(Debug, PartialEq, Eq)]
pub struct DataspaceInitArgs {
    pub dataspace_id: String,
}

/// Why a run of the provisioning job failed.
#[derive(Debug, PartialEq, Eq)]
pub enum JobFailure {
    MissingArguments(DataspaceInitError),
    Init(IniterError),
}

/// What the provisioning job does next.
#[derive(Debug, PartialEq, Eq)]
pub enum JobStep {
    /// Provision the warehouse of this dataspace.
    Initialize { dataspace_id: String },
    /// Mark the job complete.
    Complete,
    /// End the run with this error; the job is not marked complete.
    Fail(JobFailure),
}

pub enum JobStepView {
    Initialize { dataspace_id: Seq<char> },
    Complete,
    MissingArguments,
    InitFailed(IniterErrorView),
}

impl View for JobStep {
    type V = JobStepView;

    open spec fn view(&self) -> JobStepView {
        match self {
            JobStep::Initialize { dataspace_id } => JobStepView::Initialize {
                dataspace_id: dataspace_id@,
            },
            JobStep::Complete => JobStepView::Complete,
            JobStep::Fail(JobFailure::MissingArguments(_)) => JobStepView::MissingArguments,
            JobStep::Fail(JobFailure::Init(e)) => JobStepView::InitFailed(e@),
        }
    }
}

/// The job on channel `env:init:dw`, given the arguments it was spawned with:
/// without arguments it fails, else it provisions their dataspace.
pub fn dataspace_init(maybe_args: Option<DataspaceInitArgs>) -> (r: JobStep)
    ensures
        r@ == match maybe_args {
            Some(args) => JobStepView::Initialize { dataspace_id: args.dataspace_id@ },
            None => JobStepView::MissingArguments,
        },
{
    match maybe_args {
        Some(a) => JobStep::Initialize { dataspace_id: a.dataspace_id },
        None => JobStep::Fail(JobFailure::MissingArguments(DataspaceInitError::MissingArgumentsError)),
    }
}

/// Once provisioning is done: complete the job, or fail with its error.
pub fn dataspace_init_done(result: Result<(), IniterError>) -> (r: JobStep)
    ensures
        r@ == match result {
            Ok(_) => JobStepView::Complete,
            Err(e) => JobStepView::InitFailed(e@),
        },
{
    match result {
        Ok(_) => JobStep::Complete,
        Err(e) => JobStep::Fail(JobFailure::Init(e)),
    }
}

} // verus!
