//! A build as a sequence of steps.
//!
//! The caller performs the step that the build names (runs a program, copies
//! or writes a file, reads the listing), reports what happened as an
//! event, and asks for the next step, until the build is finished.

use vstd::prelude::*;
use crate::artifact::{artifact_bytes, render_artifact};
use crate::listing::Finding;
use crate::plan::{
    BuildError,
    BuildPlan,
    BuildRequest,
    all_recognized,
    plan_build,
    plan_error,
    plan_of,
    plannable,
};
use crate::script::{byte_views, render_script, script_bytes};

verus! {

/// The step that the caller performs next.
#[derive(PartialEq, Eq, Structural, Clone, Copy, Debug)]
pub enum Step {
    /// Run the Pascal translator on translation `k` of the plan.
    Translate(usize),
    /// Copy object `k` of the plan's slot bindings to its staging file.
    StageObject(usize),
    /// Write the job script.
    WriteScript,
    /// Run the batch processor on the script, its console into the listing.
    RunProcessor,
    /// Read the listing and scan it for failure signatures.
    ScanListing,
    /// Write the artifact from the processor's result.
    WriteArtifact,
    /// Remove the temporaries.
    RemoveTemporaries,
    /// Nothing is left to do.
    Finished,
}

/// What came of a step.
pub enum Event {
    /// The program exited with this code (`None` if a signal ended it).
    Exited(Option<i32>),
    /// The file operation was done.
    Completed,
    /// The listing was scanned, with these findings.
    Scanned(Vec<Finding>),
    /// The step could not be carried out.
    Failed(BuildError),
}

/// The exit code of a program that succeeded.
pub open spec fn succeeded(status: Option<i32>) -> bool {
    status == Some(0i32)
}

/// The step that closes a build, failed or not: remove the temporaries
/// unless they are kept.
pub open spec fn closing_step(plan: BuildPlan) -> Step {
    if plan.save_temps {
        Step::Finished
    } else {
        Step::RemoveTemporaries
    }
}

/// The step after the translations.
pub open spec fn after_translations(plan: BuildPlan) -> Step {
    if plan.slots.len() > 0 {
        Step::StageObject(0)
    } else {
        Step::WriteScript
    }
}

/// The first step of a plan.
pub open spec fn first_step(plan: BuildPlan) -> Step {
    if plan.translations.len() > 0 {
        Step::Translate(0)
    } else {
        after_translations(plan)
    }
}

/// The next step and the failure, if any, after `event` answers `step`. An
/// event that does not answer the step changes nothing.
pub open spec fn transition(
    plan: BuildPlan,
    step: Step,
    failure: Option<BuildError>,
    event: Event,
) -> (Step, Option<BuildError>) {
    match (step, event) {
        (Step::Translate(k), Event::Exited(status)) => {
            if succeeded(status) {
                if k + 1 < plan.translations.len() {
                    (Step::Translate((k + 1) as usize), failure)
                } else {
                    (after_translations(plan), failure)
                }
            } else {
                (
                    closing_step(plan),
                    Some(
                        BuildError::Translator {
                            file: plan.translations@[k as int].source,
                            status,
                        },
                    ),
                )
            }
        },
        (Step::StageObject(k), Event::Completed) => {
            if k + 1 < plan.slots.len() {
                (Step::StageObject((k + 1) as usize), failure)
            } else {
                (Step::WriteScript, failure)
            }
        },
        (Step::WriteScript, Event::Completed) => (Step::RunProcessor, failure),
        (Step::RunProcessor, Event::Exited(status)) => {
            if succeeded(status) {
                (Step::ScanListing, failure)
            } else {
                (Step::ScanListing, Some(BuildError::Processor { status }))
            }
        },
        (Step::ScanListing, Event::Scanned(found)) => {
            if failure is Some {
                (closing_step(plan), failure)
            } else if found.len() > 0 {
                (
                    closing_step(plan),
                    Some(BuildError::Diagnostics { listing: plan.listing_file }),
                )
            } else {
                (Step::WriteArtifact, failure)
            }
        },
        (Step::ScanListing, Event::Failed(e)) => {
            if failure is Some {
                (closing_step(plan), failure)
            } else {
                (closing_step(plan), Some(e))
            }
        },
        (Step::WriteArtifact, Event::Completed) => (closing_step(plan), failure),
        (Step::RemoveTemporaries, Event::Completed) => (Step::Finished, failure),
        (Step::RemoveTemporaries, Event::Failed(_)) => (Step::Finished, failure),
        (Step::Finished, _) => (step, failure),
        (_, Event::Failed(e)) => (closing_step(plan), Some(e)),
        _ => (step, failure),
    }
}

/// A build in progress.
pub struct Build {
    plan: BuildPlan,
    step: Step,
    failure: Option<BuildError>,
}

impl Build {
    /// The plan of the build.
    pub closed spec fn spec_plan(&self) -> BuildPlan {
        self.plan
    }

    /// The step to perform next.
    pub closed spec fn spec_step(&self) -> Step {
        self.step
    }

    /// The failure, once there is one.
    pub closed spec fn spec_failure(&self) -> Option<BuildError> {
        self.failure
    }

    /// The build's invariant: the step exists in the plan, and after a
    /// failure only scanning (to show the listing), cleanup and the end remain.
    pub open spec fn wf(&self) -> bool {
        let plan = self.spec_plan();
        &&& plan.slots_in_range()
        &&& self.spec_step() matches Step::Translate(k) ==> k < plan.translations.len()
        &&& self.spec_step() matches Step::StageObject(k) ==> k < plan.slots.len()
        &&& self.spec_failure() is Some ==> (self.spec_step() == Step::ScanListing
            || self.spec_step() == Step::RemoveTemporaries || self.spec_step() == Step::Finished)
    }

    /// Plans the build; its first step follows. Fails, with nothing run or
    /// written, as planning does.
    pub fn start(req: &BuildRequest) -> (r: Result<Build, BuildError>)
        requires
            req.files.len() > 0,
        ensures
            r is Ok <==> plannable(*req),
            all_recognized(*req) ==> (r is Ok || r->Err_0 is TooManyObjects),
            match r {
                Ok(b) => {
                    &&& plan_of(*req, b.spec_plan())
                    &&& b.wf()
                    &&& b.spec_step() == first_step(b.spec_plan())
                    &&& b.spec_failure() is None
                },
                Err(e) => plan_error(*req, e),
            },
    {
        match plan_build(req) {
            Ok(plan) => {
                let step = if plan.translations.len() > 0 {
                    Step::Translate(0)
                } else if plan.slots.len() > 0 {
                    Step::StageObject(0)
                } else {
                    Step::WriteScript
                };
                Ok(Build { plan, step, failure: None })
            },
            Err(e) => Err(e),
        }
    }

    /// The plan of the build.
    pub fn plan(&self) -> (r: &BuildPlan)
        ensures
            *r == self.spec_plan(),
    {
        &self.plan
    }

    /// The step to perform next.
    pub fn step(&self) -> (r: Step)
        ensures
            r == self.spec_step(),
    {
        self.step
    }

    #[verifier::type_invariant]
    spec fn well_formed(self) -> bool {
        self.wf()
    }

    /// Records what came of the current step; the build goes on as the result.
    pub fn advance(self, event: Event) -> (r: Build)
        ensures
            r.wf(),
            r.spec_plan() == self.spec_plan(),
            (r.spec_step(), r.spec_failure()) == transition(
                self.spec_plan(),
                self.spec_step(),
                self.spec_failure(),
                event,
            ),
    {
        proof {
            use_type_invariant(&self);
        }
        let Build { plan, step, failure } = self;
        let closing = if plan.save_temps {
            Step::Finished
        } else {
            Step::RemoveTemporaries
        };
        let (step, failure) = match (step, event) {
            (Step::Translate(k), Event::Exited(status)) => {
                if status == Some(0i32) {
                    if k + 1 < plan.translations.len() {
                        (Step::Translate(k + 1), failure)
                    } else if plan.slots.len() > 0 {
                        (Step::StageObject(0), failure)
                    } else {
                        (Step::WriteScript, failure)
                    }
                } else {
                    let file = plan.translations[k].source.clone();
                    (closing, Some(BuildError::Translator { file, status }))
                }
            },
            (Step::StageObject(k), Event::Completed) => {
                if k + 1 < plan.slots.len() {
                    (Step::StageObject(k + 1), failure)
                } else {
                    (Step::WriteScript, failure)
                }
            },
            (Step::WriteScript, Event::Completed) => (Step::RunProcessor, failure),
            (Step::RunProcessor, Event::Exited(status)) => {
                if status == Some(0i32) {
                    (Step::ScanListing, failure)
                } else {
                    (Step::ScanListing, Some(BuildError::Processor { status }))
                }
            },
            (Step::ScanListing, Event::Scanned(found)) => {
                if failure.is_some() {
                    (closing, failure)
                } else if found.len() > 0 {
                    let listing = plan.listing_file.clone();
                    (closing, Some(BuildError::Diagnostics { listing }))
                } else {
                    (Step::WriteArtifact, failure)
                }
            },
            (Step::ScanListing, Event::Failed(e)) => {
                if failure.is_some() {
                    (closing, failure)
                } else {
                    (closing, Some(e))
                }
            },
            (Step::WriteArtifact, Event::Completed) => (closing, failure),
            (Step::RemoveTemporaries, Event::Completed) => (Step::Finished, failure),
            (Step::RemoveTemporaries, Event::Failed(_)) => (Step::Finished, failure),
            (Step::Finished, _) => (Step::Finished, failure),
            (_, Event::Failed(e)) => (closing, Some(e)),
            (step, _) => (step, failure),
        };
        Build { plan, step, failure }
    }

    /// The job script, given the bytes of each input (those of an object are
    /// not used).
    pub fn script(&self, sources: &Vec<Vec<u8>>) -> (r: Vec<u8>)
        requires
            sources.len() == self.spec_plan().inputs.len(),
        ensures
            r@ == script_bytes(self.spec_plan(), byte_views(sources@)),
    {
        proof {
            use_type_invariant(self);
        }
        render_script(&self.plan, sources)
    }

    /// The artifact made from the processor's result.
    pub fn artifact(&self, result: &Vec<u8>) -> (r: Vec<u8>)
        ensures
            r@ == artifact_bytes(self.spec_plan().stop_at_object, result@),
    {
        render_artifact(self.plan.stop_at_object, result)
    }

    /// How the build ended: `Ok` unless a failure was recorded.
    pub fn outcome(self) -> (r: Result<(), BuildError>)
        ensures
            match self.spec_failure() {
                None => r is Ok,
                Some(e) => r == Err::<(), BuildError>(e),
            },
    {
        match self.failure {
            None => Ok(()),
            Some(e) => Err(e),
        }
    }
}

} // verus!
