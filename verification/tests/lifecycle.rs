//! Session lifecycle, supervision, startup validation, ports and naming.

use typst_live::ports::{port_candidate, EPHEMERAL_END, EPHEMERAL_FIRST};
use typst_live::routes::{artifact_body, refresh_frame, serve_source};
use typst_live::scratch::scratch_file_name;
use typst_live::session::{ScratchLife, Session};
use typst_live::shutdown::ShutdownFlag;
use typst_live::startup::{is_pdf_name, validate_startup, StartupError};
use typst_live::supervisor::{
    compiler_watch_args, on_child_end, watch_target, ChildEnd, SupervisorAction,
};

#[test]
fn shutdown_trigger_is_idempotent() {
    let mut f = ShutdownFlag::new();
    assert!(!f.is_triggered());
    assert!(f.accept_new_connection());
    f.trigger();
    assert!(f.is_triggered());
    f.trigger(); // repeated trigger: still simply triggered
    assert!(f.is_triggered());
    assert!(!f.accept_new_connection());
}

#[test]
fn recompile_session_removes_scratch_on_cleanup() {
    let mut s = Session::start(true);
    assert!(matches!(s.scratch, ScratchLife::Created));
    assert!(s.must_remove_artifact());
    s.trigger_shutdown();
    assert!(!s.shutdown.accept_new_connection());
    s.cleanup();
    assert!(matches!(s.scratch, ScratchLife::Removed));
    assert!(!s.must_remove_artifact());
}

#[test]
fn no_recompile_session_never_owns_a_file() {
    let mut s = Session::start(false);
    assert!(matches!(s.scratch, ScratchLife::Unowned));
    assert!(!s.must_remove_artifact());
    s.trigger_shutdown();
    s.cleanup();
    // the user's own file was never created nor removed by the process
    assert!(matches!(s.scratch, ScratchLife::Unowned));
}

#[test]
fn compiler_failure_is_fatal() {
    assert!(matches!(
        on_child_end(&ChildEnd::Exited { success: false }),
        SupervisorAction::Shutdown
    ));
    assert!(matches!(on_child_end(&ChildEnd::WaitFailed), SupervisorAction::Shutdown));
    assert!(matches!(
        on_child_end(&ChildEnd::Exited { success: true }),
        SupervisorAction::Ignore
    ));
}

#[test]
fn compiler_invocation_forwards_extra_args_verbatim() {
    let source = "report.typ".to_string();
    let artifact = "/tmp/typst-live.abc123.pdf".to_string();
    let extra = vec!["--font-path".to_string(), "fonts".to_string()];
    let args = compiler_watch_args(&source, &artifact, &extra);
    assert_eq!(
        args,
        vec![
            "watch".to_string(),
            "report.typ".to_string(),
            "/tmp/typst-live.abc123.pdf".to_string(),
            "--font-path".to_string(),
            "fonts".to_string(),
        ]
    );
}

#[test]
fn watched_and_served_file_follow_the_mode() {
    let filename = "report.pdf".to_string();
    let scratch = "typst-live.abc123.pdf".to_string();
    assert_eq!(watch_target(true, &filename, &scratch).as_str(), "report.pdf");
    assert_eq!(watch_target(false, &filename, &scratch).as_str(), "typst-live.abc123.pdf");
    assert_eq!(serve_source(true, &filename, &scratch).as_str(), "report.pdf");
    assert_eq!(serve_source(false, &filename, &scratch).as_str(), "typst-live.abc123.pdf");
}

#[test]
fn unreadable_artifact_yields_empty_body() {
    assert_eq!(artifact_body(Some(vec![1u8, 2, 3])), vec![1u8, 2, 3]);
    assert_eq!(artifact_body(None), Vec::<u8>::new());
}

#[test]
fn refresh_frame_is_the_fixed_literal() {
    assert_eq!(refresh_frame(), "refresh");
}

#[test]
fn startup_rejects_non_pdf_in_no_recompile_mode() {
    let name = "report.typ".to_string();
    assert_eq!(
        validate_startup(true, &name, true),
        Err(StartupError::NotAPdfFile)
    );
    // in recompile mode any source name is fine
    assert_eq!(validate_startup(false, &name, true), Ok(()));
}

#[test]
fn startup_rejects_missing_file() {
    let name = "report.pdf".to_string();
    assert_eq!(
        validate_startup(true, &name, false),
        Err(StartupError::FileMissing)
    );
    assert_eq!(
        validate_startup(false, &name, false),
        Err(StartupError::FileMissing)
    );
    assert_eq!(validate_startup(true, &name, true), Ok(()));
}

#[test]
fn pdf_name_check_looks_at_the_extension() {
    assert!(is_pdf_name(&"report.pdf".to_string()));
    assert!(is_pdf_name(&"a.pdf".to_string()));
    assert!(!is_pdf_name(&"pdf".to_string()));
    assert!(!is_pdf_name(&"report.pdfx".to_string()));
    assert!(!is_pdf_name(&"report.typ".to_string()));
    assert!(!is_pdf_name(&"".to_string()));
}

#[test]
fn port_scan_tries_preferred_then_ephemeral_range() {
    assert_eq!(port_candidate(5599, 0), Some(5599));
    assert_eq!(port_candidate(5599, 1), Some(49152));
    assert_eq!(port_candidate(5599, 2), Some(49153));
    let last = (EPHEMERAL_END - EPHEMERAL_FIRST) as usize;
    assert_eq!(port_candidate(5599, last), Some(65534));
    assert_eq!(port_candidate(5599, last + 1), None);
}

#[test]
fn port_scan_falls_back_when_preferred_port_is_taken() {
    // the binary's bind loop: the first candidate a taken-ports set admits
    let taken = [5599u16, 49152];
    let mut chosen = None;
    let mut idx = 0usize;
    while let Some(p) = port_candidate(5599, idx) {
        if !taken.contains(&p) {
            chosen = Some(p);
            break;
        }
        idx += 1;
    }
    assert_eq!(chosen, Some(49153));
}

#[test]
fn scratch_name_has_stem_random_part_and_extension() {
    let name = scratch_file_name();
    assert_eq!(name.len(), 21);
    assert!(name.starts_with("typst-live."));
    assert!(name.ends_with(".pdf"));
    let middle = &name[11..17];
    assert!(middle.chars().all(|c| c.is_ascii_alphanumeric()));
    // two sessions almost surely do not collide; and the name is freshly drawn
    let other = scratch_file_name();
    assert_eq!(other.len(), 21);
    assert!(other.starts_with("typst-live."));
}
