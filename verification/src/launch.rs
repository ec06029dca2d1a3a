//! Start-up decisions: which VR backend is run, in which order, and where
//! the log is written.
//!
//! Running a backend and writing a log are the application's business. It
//! asks here what to do next and reports back what came of it.

use vstd::prelude::*;

verus! {

/// Command-line arguments of the overlay.
#[derive(Debug)]
pub struct Args {
    /// Force the OpenVR backend.
    pub openvr: bool,
    /// Force the OpenXR backend.
    pub openxr: bool,
    /// Uninstall the OpenVR manifest and exit.
    pub uninstall: bool,
    /// Path to write logs to.
    pub log_to: Option<String>,
    /// Show a desktop window of a UI panel for development.
    pub uidev: Option<String>,
}

/// The VR backends that this build holds.
#[derive(Clone, Copy, Debug, PartialEq, Eq, Structural)]
pub struct Backends {
    pub openvr: bool,
    pub openxr: bool,
}

/// A VR backend.
#[derive(Clone, Copy, Debug, PartialEq, Eq, Structural)]
pub enum Backend {
    OpenXr,
    OpenVr,
}

/// How a backend's run ended.
#[derive(Clone, Copy, Debug, PartialEq, Eq, Structural)]
pub enum Outcome {
    /// The backend ran and was shut down.
    Finished,
    /// The backend has no runtime to talk to on this machine.
    NotSupported,
    /// The backend failed.
    Failed,
}

/// How far the start-up has come.
#[derive(Clone, Copy, Debug, PartialEq, Eq, Structural)]
pub enum Progress {
    /// No backend was run yet.
    Start,
    /// The given backend was run last, and returned.
    Returned(Backend, Outcome),
}

/// What the application reports when it stops.
#[derive(Clone, Copy, Debug, PartialEq, Eq, Structural)]
pub enum Report {
    /// Nothing: a backend ran and was shut down.
    Nothing,
    /// The error of the backend that failed.
    BackendError,
    /// That no backend is left to try.
    NoMoreBackends,
}

/// What the application does next.
#[derive(Clone, Copy, Debug, PartialEq, Eq, Structural)]
pub enum Action {
    /// Run this backend, and come back with its outcome.
    Run(Backend),
    /// Report, and leave.
    Stop(Report),
}

/// OpenVR is forced where the command line asks for it and this build holds
/// it: a backend that is not built in has no flag.
pub open spec fn forces_openvr(args: Args, built: Backends) -> bool {
    built.openvr && args.openvr
}

/// OpenXR is forced where the command line asks for it and this build holds
/// it.
pub open spec fn forces_openxr(args: Args, built: Backends) -> bool {
    built.openxr && args.openxr
}

/// Whether the OpenVR backend is forced, see [`forces_openvr`].
pub fn args_get_openvr(args: &Args, built: Backends) -> (ret: bool)
    ensures
        ret == forces_openvr(*args, built),
{
    built.openvr && args.openvr
}

/// Whether the OpenXR backend is forced, see [`forces_openxr`].
pub fn args_get_openxr(args: &Args, built: Backends) -> (ret: bool)
    ensures
        ret == forces_openxr(*args, built),
{
    built.openxr && args.openxr
}

/// OpenXR is tried where it is built in and OpenVR is not forced.
pub open spec fn tries_openxr(args: Args, built: Backends) -> bool {
    built.openxr && !forces_openvr(args, built)
}

/// OpenVR is tried where it is built in and OpenXR is not forced.
pub open spec fn tries_openvr(args: Args, built: Backends) -> bool {
    built.openvr && !forces_openxr(args, built)
}

/// What is done once OpenXR is out of the way.
pub open spec fn after_openxr(args: Args, built: Backends) -> Action {
    if tries_openvr(args, built) {
        Action::Run(Backend::OpenVr)
    } else {
        Action::Stop(Report::NoMoreBackends)
    }
}

/// The action that follows on `progress`.
///
/// OpenXR comes first, OpenVR second. A backend that finished or failed ends
/// the start-up; one without a runtime makes way for the next.
pub open spec fn next_action(args: Args, built: Backends, progress: Progress) -> Action {
    match progress {
        Progress::Start => if tries_openxr(args, built) {
            Action::Run(Backend::OpenXr)
        } else {
            after_openxr(args, built)
        },
        Progress::Returned(_, Outcome::Finished) => Action::Stop(Report::Nothing),
        Progress::Returned(_, Outcome::Failed) => Action::Stop(Report::BackendError),
        Progress::Returned(Backend::OpenXr, Outcome::NotSupported) => after_openxr(args, built),
        Progress::Returned(Backend::OpenVr, Outcome::NotSupported) => Action::Stop(
            Report::NoMoreBackends,
        ),
    }
}

/// Decides the next step of the start-up.
pub fn auto_run(args: &Args, built: Backends, progress: Progress) -> (action: Action)
    ensures
        action == next_action(*args, built, progress),
{
    let openvr_next = if built.openvr && !args_get_openxr(args, built) {
        Action::Run(Backend::OpenVr)
    } else {
        Action::Stop(Report::NoMoreBackends)
    };
    match progress {
        Progress::Start => {
            if built.openxr && !args_get_openvr(args, built) {
                Action::Run(Backend::OpenXr)
            } else {
                openvr_next
            }
        },
        Progress::Returned(backend, outcome) => match outcome {
            Outcome::Finished => Action::Stop(Report::Nothing),
            Outcome::Failed => Action::Stop(Report::BackendError),
            Outcome::NotSupported => match backend {
                Backend::OpenXr => openvr_next,
                Backend::OpenVr => Action::Stop(Report::NoMoreBackends),
            },
        },
    }
}

/// The start-up ends after two runs at most: OpenXR is never run after a
/// backend has returned, and nothing is run after OpenVR.
pub proof fn lemma_at_most_two_runs(args: Args, built: Backends, backend: Backend, outcome: Outcome)
    ensures
        next_action(args, built, Progress::Returned(backend, outcome)) != Action::Run(
            Backend::OpenXr,
        ),
        next_action(args, built, Progress::Returned(Backend::OpenVr, outcome)) is Stop,
{
}

/// A backend is run only where it is built in and the other one is not
/// forced. The flag of a backend that is not built in forces nothing.
pub proof fn lemma_runs_respect_flags(args: Args, built: Backends, progress: Progress)
    ensures
        next_action(args, built, progress) == Action::Run(Backend::OpenXr) ==> built.openxr
            && !(built.openvr && args.openvr),
        next_action(args, built, progress) == Action::Run(Backend::OpenVr) ==> built.openvr
            && !(built.openxr && args.openxr),
        !built.openvr ==> next_action(args, built, Progress::Start) == next_action(
            Args { openvr: false, ..args },
            built,
            Progress::Start,
        ),
{
}

/// The path that is logged to where neither the command line nor the
/// environment names one.
pub open spec fn default_log_file() -> Seq<char> {
    "/tmp/wlx.log"@
}

/// The log file: the command line's, else the environment's, else the
/// default. The first of these that is given decides: an empty path there
/// means that no file is written.
pub open spec fn chosen_log_file(log_to: Option<Seq<char>>, env: Option<Seq<char>>) -> Option<
    Seq<char>,
> {
    let path = match log_to {
        Some(p) => p,
        None => match env {
            Some(p) => p,
            None => default_log_file(),
        },
    };
    if path.len() == 0 {
        None
    } else {
        Some(path)
    }
}

/// Chooses the file that the log is written to, if any.
pub fn log_file_choice(log_to: Option<String>, env: Option<String>) -> (r: Option<String>)
    ensures
        chosen_log_file(
            match log_to {
                Some(p) => Some(p@),
                None => None,
            },
            match env {
                Some(p) => Some(p@),
                None => None,
            },
        ) == match r {
            Some(p) => Some(p@),
            None => None,
        },
{
    let path = match log_to {
        Some(p) => p,
        None => match env {
            Some(p) => p,
            None => "/tmp/wlx.log".to_owned(),
        },
    };
    if path.as_str().is_empty() {
        None
    } else {
        Some(path)
    }
}

} // verus!
