//! What became of an action: the outcome of each of its steps.

use vstd::prelude::*;

verus! {

/// The steps in which an action is carried out, in their fixed order.
#[derive(Clone, Copy, Debug, PartialEq, Eq, Structural)]
pub enum Stage {
    /// What is done to the message.
    Message,
    /// What is done to its author.
    User,
    /// The notice to the moderators.
    Report,
}

/// How one step ended.
#[derive(Debug, PartialEq, Eq)]
pub enum StepOutcome {
    /// The action asks for nothing at this step, so nothing was requested.
    Skipped,
    /// The platform carried the request out.
    Succeeded,
    /// The request could not be built, or the platform refused it.
    Failed(String),
}

/// The mathematical value of a [`StepOutcome`].
pub enum StepOutcomeView {
    Skipped,
    Succeeded,
    Failed(Seq<char>),
}

impl View for StepOutcome {
    type V = StepOutcomeView;

    open spec fn view(&self) -> StepOutcomeView {
        match *self {
            StepOutcome::Skipped => StepOutcomeView::Skipped,
            StepOutcome::Succeeded => StepOutcomeView::Succeeded,
            StepOutcome::Failed(error) => StepOutcomeView::Failed(error@),
        }
    }
}

/// The outcome of every step of one action.
#[derive(Debug, PartialEq, Eq)]
pub struct ExecutionReport {
    pub message: StepOutcome,
    pub user: StepOutcome,
    pub report: StepOutcome,
}

/// The mathematical value of an [`ExecutionReport`].
pub struct ExecutionReportView {
    pub message: StepOutcomeView,
    pub user: StepOutcomeView,
    pub report: StepOutcomeView,
}

impl View for ExecutionReport {
    type V = ExecutionReportView;

    open spec fn view(&self) -> ExecutionReportView {
        ExecutionReportView { message: self.message@, user: self.user@, report: self.report@ }
    }
}

/// The failure of an action as a whole: the step that failed, the error, and
/// the outcome of every step, so that what did take effect can still be told.
#[derive(Debug, PartialEq, Eq)]
pub struct ExecutionError {
    pub stage: Stage,
    pub error: String,
    pub outcomes: ExecutionReport,
}

/// The mathematical value of an [`ExecutionError`].
pub struct ExecutionErrorView {
    pub stage: Stage,
    pub error: Seq<char>,
    pub outcomes: ExecutionReportView,
}

impl View for ExecutionError {
    type V = ExecutionErrorView;

    open spec fn view(&self) -> ExecutionErrorView {
        ExecutionErrorView { stage: self.stage, error: self.error@, outcomes: self.outcomes@ }
    }
}

/// The outcomes before any step was taken.
pub open spec fn nothing_done() -> ExecutionReportView {
    ExecutionReportView {
        message: StepOutcomeView::Skipped,
        user: StepOutcomeView::Skipped,
        report: StepOutcomeView::Skipped,
    }
}

/// The outcome of a step whose request the platform answered with `result`.
pub open spec fn outcome_of(result: Result<(), Seq<char>>) -> StepOutcomeView {
    match result {
        Ok(()) => StepOutcomeView::Succeeded,
        Err(error) => StepOutcomeView::Failed(error),
    }
}

/// `outcomes` with the outcome of `stage` replaced.
pub open spec fn with_outcome(
    outcomes: ExecutionReportView,
    stage: Stage,
    outcome: StepOutcomeView,
) -> ExecutionReportView {
    match stage {
        Stage::Message => ExecutionReportView { message: outcome, ..outcomes },
        Stage::User => ExecutionReportView { user: outcome, ..outcomes },
        Stage::Report => ExecutionReportView { report: outcome, ..outcomes },
    }
}

/// The result of an action whose steps ended as `outcomes` say. The action
/// fails as a whole only where the notice to the moderators failed: a failed
/// step before it is on record in the outcomes, and in the notice itself.
pub open spec fn concluded(outcomes: ExecutionReportView) -> Result<
    ExecutionReportView,
    ExecutionErrorView,
> {
    match outcomes.report {
        StepOutcomeView::Failed(error) => Err(
            ExecutionErrorView { stage: Stage::Report, error, outcomes },
        ),
        _ => Ok(outcomes),
    }
}

/// The first step that failed, in the order of the steps, with its error.
pub open spec fn spec_first_failure(outcomes: ExecutionReportView) -> Option<(Stage, Seq<char>)> {
    if let StepOutcomeView::Failed(error) = outcomes.message {
        Some((Stage::Message, error))
    } else if let StepOutcomeView::Failed(error) = outcomes.user {
        Some((Stage::User, error))
    } else if let StepOutcomeView::Failed(error) = outcomes.report {
        Some((Stage::Report, error))
    } else {
        None
    }
}

impl StepOutcome {
    /// The outcome of a step whose request the platform answered with `result`.
    pub fn from_result(result: Result<(), String>) -> (outcome: StepOutcome)
        ensures
            outcome@ == outcome_of(
                match result {
                    Ok(()) => Ok(()),
                    Err(error) => Err(error@),
                },
            ),
    {
        match result {
            Ok(()) => StepOutcome::Succeeded,
            Err(error) => StepOutcome::Failed(error),
        }
    }

    /// Whether the step failed.
    pub fn is_failed(&self) -> (failed: bool)
        ensures
            failed == (self@ is Failed),
    {
        match self {
            StepOutcome::Failed(_) => true,
            _ => false,
        }
    }
}

impl ExecutionReport {
    /// The outcomes before any step was taken.
    pub fn nothing() -> (outcomes: ExecutionReport)
        ensures
            outcomes@ == nothing_done(),
    {
        ExecutionReport {
            message: StepOutcome::Skipped,
            user: StepOutcome::Skipped,
            report: StepOutcome::Skipped,
        }
    }

    /// Closes an action: the outcomes if the notice to the moderators did not
    /// fail, else the failure of that step with the outcomes beside it.
    pub fn conclude(self) -> (result: Result<ExecutionReport, ExecutionError>)
        ensures
            match result {
                Ok(outcomes) => Ok(outcomes@),
                Err(failure) => Err(failure@),
            } == concluded(self@),
            result is Err <==> self@.report is Failed,
    {
        let ExecutionReport { message, user, report } = self;
        match report {
            StepOutcome::Failed(error) => {
                let copy = error.clone();
                Err(
                    ExecutionError {
                        stage: Stage::Report,
                        error,
                        outcomes: ExecutionReport { message, user, report: StepOutcome::Failed(copy) },
                    },
                )
            },
            report => Ok(ExecutionReport { message, user, report }),
        }
    }

    /// The first step that failed, with its error. A caller for which any
    /// failed step is fatal finds its error here.
    pub fn first_failure(&self) -> (failure: Option<(Stage, String)>)
        ensures
            match failure {
                Some((stage, error)) => Some((stage, error@)),
                None => None,
            } == spec_first_failure(self@),
    {
        if let StepOutcome::Failed(error) = &self.message {
            Some((Stage::Message, error.clone()))
        } else if let StepOutcome::Failed(error) = &self.user {
            Some((Stage::User, error.clone()))
        } else if let StepOutcome::Failed(error) = &self.report {
            Some((Stage::Report, error.clone()))
        } else {
            None
        }
    }
}

} // verus!
