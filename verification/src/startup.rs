//! Startup: assemble the builder, hand it to the runtime once, and decide from
//! what the runtime reports how the process ends.

use vstd::prelude::*;
use crate::assembly::{assemble, assemble_accumulating};
use crate::builder::Builder;
use crate::platform::Platform;
use crate::plugin::plugins_for;

verus! {

/// What the runtime reports when its run call returns.
#[derive(Clone, Copy, Debug, PartialEq, Eq, Structural)]
pub enum Outcome {
    /// The runtime started, and its event loop ran until the application ended.
    Success,
    /// The runtime could not be started. No cause is told apart from another.
    Failure,
}

/// How the process ends after startup.
#[derive(Clone, Copy, Debug, PartialEq, Eq, Structural)]
pub enum Termination {
    /// The process ends normally, with exit code 0.
    Normal,
    /// The process is aborted: an unrecoverable fault.
    Abort,
}

/// The end that each outcome leads to: a success never aborts, a failure
/// always does.
pub open spec fn termination_after(outcome: Outcome) -> Termination {
    match outcome {
        Outcome::Success => Termination::Normal,
        Outcome::Failure => Termination::Abort,
    }
}

/// Decides how the process ends from what the runtime reported.
pub fn conclude(outcome: Outcome) -> (termination: Termination)
    ensures
        termination == termination_after(outcome),
        termination is Normal <==> outcome is Success,
        termination is Abort <==> outcome is Failure,
{
    match outcome {
        Outcome::Success => Termination::Normal,
        Outcome::Failure => Termination::Abort,
    }
}

/// What a startup on `platform` with `runtime` comes to: the runtime was
/// handed a builder that holds exactly the plugins of the platform, and
/// `termination` is the end that its report leads to.
pub open spec fn started<R: FnOnce(Builder) -> Outcome>(
    platform: Platform,
    runtime: R,
    termination: Termination,
) -> bool {
    exists|builder: Builder, outcome: Outcome|
        builder@ == plugins_for(platform) && #[trigger] runtime.ensures((builder,), outcome)
            && termination == termination_after(outcome)
}

/// Starts the application on `platform`: assembles the builder, hands it to
/// `runtime` and decides from the reported outcome how the process ends.
///
/// The runtime is called once and never again, whatever it reports: it is
/// consumed by the call. It gets a builder that holds exactly the plugins of
/// the platform, and the returned end is the one that its report leads to: a
/// runtime that can only succeed never leads to an abort, one that can only
/// fail always does. The caller carries the end out; nothing here ends the
/// process.
pub fn run<R: FnOnce(Builder) -> Outcome>(platform: Platform, runtime: R) -> (termination:
    Termination)
    requires
        forall|builder: Builder|
            builder@ == plugins_for(platform) ==> #[trigger] runtime.requires((builder,)),
    ensures
        started(platform, runtime, termination),
        (forall|builder: Builder, outcome: Outcome| #[trigger]
            runtime.ensures((builder,), outcome) ==> outcome is Success) ==> termination
            is Normal,
        (forall|builder: Builder, outcome: Outcome| #[trigger]
            runtime.ensures((builder,), outcome) ==> outcome is Failure) ==> termination
            is Abort,
{
    let builder = assemble(platform);
    let outcome = runtime(builder);
    conclude(outcome)
}

/// Starts the application as [`run`] does, with the builder assembled in
/// place from the registry. Nothing tells the two apart: the runtime gets the
/// same plugins in the same order, once, and the same report leads to the
/// same end.
pub fn run_accumulating<R: FnOnce(Builder) -> Outcome>(platform: Platform, runtime: R) -> (
    termination: Termination)
    requires
        forall|builder: Builder|
            builder@ == plugins_for(platform) ==> #[trigger] runtime.requires((builder,)),
    ensures
        started(platform, runtime, termination),
        (forall|builder: Builder, outcome: Outcome| #[trigger]
            runtime.ensures((builder,), outcome) ==> outcome is Success) ==> termination
            is Normal,
        (forall|builder: Builder, outcome: Outcome| #[trigger]
            runtime.ensures((builder,), outcome) ==> outcome is Failure) ==> termination
            is Abort,
{
    let builder = assemble_accumulating(platform);
    let outcome = runtime(builder);
    conclude(outcome)
}

} // verus!
