use wlx_graphics::launch::{
    args_get_openvr, args_get_openxr, auto_run, log_file_choice, Action, Args, Backend, Backends,
    Outcome, Progress, Report,
};

fn args(openvr: bool, openxr: bool) -> Args {
    Args { openvr, openxr, uninstall: false, log_to: None, uidev: None }
}

const BOTH: Backends = Backends { openvr: true, openxr: true };

#[test]
fn flags_are_read_from_the_arguments() {
    assert!(args_get_openvr(&args(true, false), BOTH));
    assert!(!args_get_openxr(&args(true, false), BOTH));
    assert!(!args_get_openvr(&args(false, true), BOTH));
    assert!(args_get_openxr(&args(false, true), BOTH));
    assert!(!args_get_openvr(&args(false, false), BOTH));
    assert!(!args_get_openxr(&args(false, false), BOTH));
}

#[test]
fn backend_that_is_not_built_in_has_no_flag() {
    let only_xr = Backends { openvr: false, openxr: true };
    let only_vr = Backends { openvr: true, openxr: false };
    assert!(!args_get_openvr(&args(true, true), only_xr));
    assert!(args_get_openxr(&args(true, true), only_xr));
    assert!(args_get_openvr(&args(true, true), only_vr));
    assert!(!args_get_openxr(&args(true, true), only_vr));
    assert_eq!(auto_run(&args(true, false), only_xr, Progress::Start), Action::Run(Backend::OpenXr));
    assert_eq!(auto_run(&args(false, true), only_vr, Progress::Start), Action::Run(Backend::OpenVr));
    assert_eq!(
        auto_run(
            &args(true, false),
            only_xr,
            Progress::Returned(Backend::OpenXr, Outcome::NotSupported)
        ),
        Action::Stop(Report::NoMoreBackends)
    );
}

#[test]
fn openxr_is_tried_first() {
    assert_eq!(auto_run(&args(false, false), BOTH, Progress::Start), Action::Run(Backend::OpenXr));
    assert_eq!(auto_run(&args(false, true), BOTH, Progress::Start), Action::Run(Backend::OpenXr));
}

#[test]
fn openvr_follows_where_openxr_has_no_runtime() {
    let returned = Progress::Returned(Backend::OpenXr, Outcome::NotSupported);
    assert_eq!(auto_run(&args(false, false), BOTH, returned), Action::Run(Backend::OpenVr));
    assert_eq!(
        auto_run(&args(false, true), BOTH, returned),
        Action::Stop(Report::NoMoreBackends)
    );
    assert_eq!(
        auto_run(&args(false, false), Backends { openvr: false, openxr: true }, returned),
        Action::Stop(Report::NoMoreBackends)
    );
}

#[test]
fn forcing_openvr_skips_openxr() {
    assert_eq!(auto_run(&args(true, false), BOTH, Progress::Start), Action::Run(Backend::OpenVr));
    assert_eq!(
        auto_run(&args(true, true), BOTH, Progress::Start),
        Action::Stop(Report::NoMoreBackends)
    );
}

#[test]
fn backend_that_is_not_built_in_is_not_run() {
    let only_vr = Backends { openvr: true, openxr: false };
    let none = Backends { openvr: false, openxr: false };
    assert_eq!(auto_run(&args(false, false), only_vr, Progress::Start), Action::Run(Backend::OpenVr));
    assert_eq!(
        auto_run(&args(false, false), none, Progress::Start),
        Action::Stop(Report::NoMoreBackends)
    );
}

#[test]
fn finished_or_failed_backend_ends_the_start_up() {
    for backend in [Backend::OpenXr, Backend::OpenVr] {
        assert_eq!(
            auto_run(&args(false, false), BOTH, Progress::Returned(backend, Outcome::Finished)),
            Action::Stop(Report::Nothing)
        );
        assert_eq!(
            auto_run(&args(false, false), BOTH, Progress::Returned(backend, Outcome::Failed)),
            Action::Stop(Report::BackendError)
        );
    }
}

#[test]
fn nothing_is_left_after_openvr() {
    assert_eq!(
        auto_run(
            &args(false, false),
            BOTH,
            Progress::Returned(Backend::OpenVr, Outcome::NotSupported)
        ),
        Action::Stop(Report::NoMoreBackends)
    );
}

#[test]
fn log_file_is_taken_from_the_first_source_that_names_one() {
    assert_eq!(
        log_file_choice(Some("/var/log/a.log".to_string()), Some("/var/log/b.log".to_string())),
        Some("/var/log/a.log".to_string())
    );
    assert_eq!(
        log_file_choice(None, Some("/var/log/b.log".to_string())),
        Some("/var/log/b.log".to_string())
    );
    assert_eq!(log_file_choice(None, None), Some("/tmp/wlx.log".to_string()));
}

#[test]
fn empty_path_means_no_log_file() {
    assert_eq!(log_file_choice(Some(String::new()), Some("/var/log/b.log".to_string())), None);
    assert_eq!(log_file_choice(None, Some(String::new())), None);
    assert_eq!(log_file_choice(Some(String::new()), None), None);
}
