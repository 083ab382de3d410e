use photogrammetrie::com::{Auftrag, ServerStatus};
use photogrammetrie::model::{ImageAppStatus, PageForm};
use photogrammetrie::phase::{
    AdvanceOutcome, CancelSignal, PageKind, PhaseResponse, PhotogrammetryPhase, SubmitOutcome,
    WorkflowPhase,
};

fn capture_form(r1: &str, r2: &str, r3: &str) -> PageForm {
    PageForm::Auftrag(photogrammetrie::model::Auftrag::new(
        r1.to_string(),
        r2.to_string(),
        r3.to_string(),
        "http://device:8080/".to_string(),
    ))
}

/// Drives a fresh workflow into the capturing phase with the given plan.
fn start_capturing(plan: Vec<i32>) -> WorkflowPhase {
    let idle = WorkflowPhase::new();
    let (phase, resp) = idle.enter_capturing(
        "http://device:8080/".to_string(),
        Auftrag::from_vec(plan),
        true,
    );
    assert!(matches!(resp, PhaseResponse::Redirect(_)));
    assert!(matches!(phase, WorkflowPhase::Capturing(_)));
    phase
}

#[test]
fn submit_valid_plan_from_idle_enters_capturing() {
    let idle = WorkflowPhase::new();
    let (idle, outcome) = idle.submit_plan(capture_form("20", "5", "1"));
    let (url, plan) = match outcome {
        SubmitOutcome::PostPlan(url, plan) => (url, plan),
        SubmitOutcome::Rejected(_) => panic!("valid plan was rejected"),
    };
    assert_eq!(url, "http://device:8080/");
    assert_eq!(plan.auftrag, vec![20, 5, 1]);

    let (phase, resp) = idle.enter_capturing(url, plan, true);
    assert!(matches!(phase, WorkflowPhase::Capturing(_)));
    match resp {
        PhaseResponse::Redirect(p) => assert_eq!(p, "/"),
        _ => panic!("expected a redirect"),
    }
}

#[test]
fn second_submit_is_rejected_in_phase() {
    // A subsequent plan submission against the capturing phase is rejected
    // as not valid in the current phase and leaves the phase untouched.
    let capturing = start_capturing(vec![20, 5, 1]);
    let (phase, outcome) = capturing.submit_plan(capture_form("9", "9", "9"));
    assert!(matches!(phase, WorkflowPhase::Capturing(_)));
    match outcome {
        SubmitOutcome::Rejected(PhaseResponse::NotFoundInPhase(endpoint, name)) => {
            assert_eq!(endpoint, "/page_form(post)");
            assert_eq!(name, "ImagePhase");
        },
        _ => panic!("expected the submission to be rejected"),
    }
}

#[test]
fn submit_rejects_empty_form_and_bad_plans() {
    let idle = WorkflowPhase::new();
    let (idle, outcome) = idle.submit_plan(PageForm::Empty);
    match outcome {
        SubmitOutcome::Rejected(PhaseResponse::ServerError(m)) => {
            assert_eq!(m, "Invalid Form was Submitted")
        },
        _ => panic!("expected the empty form to be rejected"),
    }
    let (idle, outcome) = idle.submit_plan(capture_form("20", "five", "1"));
    match outcome {
        SubmitOutcome::Rejected(PhaseResponse::ServerError(m)) => {
            assert_eq!(m, "invalid round count in form")
        },
        _ => panic!("expected the unparsable form to be rejected"),
    }
    let (idle, outcome) = idle.submit_plan(capture_form("20", "0", "1"));
    match outcome {
        SubmitOutcome::Rejected(PhaseResponse::ServerError(m)) => {
            assert_eq!(m, "invalid capture plan")
        },
        _ => panic!("expected the non-positive plan to be rejected"),
    }
    assert!(matches!(idle, WorkflowPhase::Idle(_)));
}

#[test]
fn failed_posting_stays_idle() {
    let idle = WorkflowPhase::new();
    let (phase, resp) = idle.enter_capturing(
        "http://device:8080/".to_string(),
        Auftrag::from_vec(vec![20, 5]),
        false,
    );
    assert!(matches!(phase, WorkflowPhase::Idle(_)));
    match resp {
        PhaseResponse::ServerError(m) => assert_eq!(m, "could not submit capture plan"),
        _ => panic!("expected a failure report"),
    }
}

#[test]
fn capture_to_reconstruction_scenario() {
    // Plan [20, 5]: the device first reports round 0 with 3 images — status
    // shows capture in progress — and later round 1 with 5 images, the
    // plan's final target, upon which the engine signals completion and the
    // workflow advances to reconstruction by spawning the process.
    let mut phase = start_capturing(vec![20, 5]);

    if let WorkflowPhase::Capturing(ip) = &mut phase {
        let early = ServerStatus::new(0, 3);
        assert!(ip.image_downloader.observe_status(early));
        assert!(ip.image_downloader.should_continue());
    } else {
        unreachable!();
    }
    match phase.status() {
        PhaseResponse::StatusJson(s) => {
            assert_eq!(s, ImageAppStatus::TakingImages(ServerStatus::new(0, 3)))
        },
        _ => panic!("expected the capture status"),
    }

    // Not complete yet: the advance request is refused.
    let (phase, outcome) = phase.try_advance();
    assert!(matches!(outcome, AdvanceOutcome::Rejected(_)));

    let mut phase = phase;
    if let WorkflowPhase::Capturing(ip) = &mut phase {
        assert!(ip.image_downloader.observe_status(ServerStatus::new(1, 5)));
        assert_eq!(ip.image_downloader.get_status(), ImageAppStatus::Finished);
        assert!(!ip.image_downloader.should_continue());
    } else {
        unreachable!();
    }

    let (phase, outcome) = phase.try_advance();
    assert!(matches!(outcome, AdvanceOutcome::SpawnProcess));
    let (phase, resp) = phase.enter_reconstructing(true);
    assert!(matches!(phase, WorkflowPhase::Reconstructing(_)));
    assert!(matches!(resp, PhaseResponse::Redirect(_)));
}

#[test]
fn failed_spawn_stays_capturing() {
    let mut phase = start_capturing(vec![1]);
    if let WorkflowPhase::Capturing(ip) = &mut phase {
        assert!(ip.image_downloader.observe_status(ServerStatus::new(0, 1)));
    }
    let (phase, _) = phase.try_advance();
    let (phase, resp) = phase.enter_reconstructing(false);
    assert!(matches!(phase, WorkflowPhase::Capturing(_)));
    match resp {
        PhaseResponse::ServerError(m) => assert_eq!(m, "could not start reconstruction"),
        _ => panic!("expected a failure report"),
    }
}

#[test]
fn download_and_content_listing() {
    // Remote ready set {a, b}, local store {a}: one download is planned, for
    // b; once it is stored the content listing names exactly a and b, each
    // once.
    let mut phase = start_capturing(vec![20, 5]);
    if let WorkflowPhase::Capturing(ip) = &mut phase {
        ip.image_downloader.store_image(&"/aufnahme/a".to_string());
        let ready = vec!["/aufnahme/a".to_string(), "/aufnahme/b".to_string()];
        let planned = ip.image_downloader.get_new_image_paths(&ready);
        assert_eq!(planned, vec!["/aufnahme/b".to_string()]);
        for p in &planned {
            ip.image_downloader.store_image(p);
        }
    } else {
        unreachable!();
    }
    match phase.get_content() {
        PhaseResponse::ImageList(list) => {
            assert_eq!(
                list,
                vec!["/media_content/a".to_string(), "/media_content/b".to_string()]
            );
        },
        _ => panic!("expected the image list"),
    }
    assert!(matches!(
        phase.get_specific_content(&"a".to_string()),
        PhaseResponse::ServeImage(_)
    ));
    assert!(matches!(
        phase.get_specific_content(&"missing".to_string()),
        PhaseResponse::ImageNotFound
    ));
}

#[test]
fn reset_during_reconstruction_kills_process() {
    // Reset while reconstructing directs the caller to terminate the child
    // process and returns the workflow to idle at once.
    let phase = start_capturing(vec![1]);
    let (phase, _) = phase.enter_reconstructing(true);
    assert!(matches!(phase, WorkflowPhase::Reconstructing(_)));
    let (phase, signal, resp) = phase.reset();
    assert!(matches!(phase, WorkflowPhase::Idle(_)));
    assert_eq!(signal, CancelSignal::KillProcess);
    assert!(matches!(resp, PhaseResponse::Redirect(_)));
}

#[test]
fn reset_signals_per_phase() {
    let idle = WorkflowPhase::new();
    let (idle, signal, resp) = idle.reset();
    assert!(matches!(idle, WorkflowPhase::Idle(_)));
    assert_eq!(signal, CancelSignal::Nothing);
    assert!(matches!(resp, PhaseResponse::NotFoundInPhase(_, _)));

    let capturing = start_capturing(vec![1]);
    let (phase, signal, _) = capturing.reset();
    assert!(matches!(phase, WorkflowPhase::Idle(_)));
    assert_eq!(signal, CancelSignal::StopSync);

    let capturing = start_capturing(vec![1]);
    let (phase, _) = capturing.enter_reconstructing(true);
    let (phase, _) = phase.finish_reconstruction();
    assert!(matches!(phase, WorkflowPhase::Complete(_)));
    let (phase, signal, _) = phase.reset();
    assert!(matches!(phase, WorkflowPhase::Idle(_)));
    assert_eq!(signal, CancelSignal::Nothing);
}

#[test]
fn transcript_accumulates_in_order_with_one_terminal_event() {
    let mut pp = PhotogrammetryPhase::new();
    let n1 = pp.handle_line("first".to_string());
    let n2 = pp.handle_line("second".to_string());
    assert_eq!(n1, "{\"type\":\"NewConsoleOutput\",\"body\":\"first\"}");
    assert_eq!(n2, "{\"type\":\"NewConsoleOutput\",\"body\":\"second\"}");
    let done = pp.finish();
    assert_eq!(done, Some("{\"type\":\"Finished\"}".to_string()));
    // The terminal event is recorded exactly once.
    assert_eq!(pp.finish(), None);
    assert_eq!(pp.fail("late".to_string()), None);
    assert_eq!(
        pp.console_output,
        vec![
            "{\"type\":\"NewConsoleOutput\",\"body\":\"first\"}".to_string(),
            "{\"type\":\"NewConsoleOutput\",\"body\":\"second\"}".to_string(),
            "{\"type\":\"Finished\"}".to_string(),
        ]
    );
}

#[test]
fn failed_process_records_error_event() {
    let mut pp = PhotogrammetryPhase::new();
    let n = pp.fail("child exited with an error".to_string());
    assert_eq!(
        n,
        Some("{\"type\":\"Error\",\"body\":\"child exited with an error\"}".to_string())
    );
    assert!(pp.terminal_recorded);
}

#[test]
fn phase_pages_and_content_surfaces() {
    let idle = WorkflowPhase::new();
    assert!(matches!(idle.index(), PhaseResponse::Page(PageKind::StartupPage)));
    assert!(matches!(idle.status(), PhaseResponse::NotFoundInPhase(_, _)));
    assert!(matches!(idle.get_content(), PhaseResponse::NotFoundInPhase(_, _)));
    assert!(matches!(idle.ws_notification(), PhaseResponse::NotFoundInPhase(_, _)));

    let capturing = start_capturing(vec![1]);
    assert!(matches!(capturing.index(), PhaseResponse::Page(PageKind::ImagePhasePage)));
    assert!(matches!(capturing.ws_notification(), PhaseResponse::StartWebsocket));

    let (reconstructing, _) = capturing.enter_reconstructing(true);
    assert!(matches!(
        reconstructing.index(),
        PhaseResponse::Page(PageKind::PhotogrammetryPage)
    ));
    assert!(matches!(reconstructing.ws_notification(), PhaseResponse::StartWebsocket));
    match reconstructing.get_content() {
        PhaseResponse::ConsoleLog(log) => assert!(log.is_empty()),
        _ => panic!("expected the console transcript"),
    }

    let (complete, _) = reconstructing.finish_reconstruction();
    assert!(matches!(complete.index(), PhaseResponse::Page(PageKind::ModelPage)));
    match complete.get_content() {
        PhaseResponse::ArchiveFile(p) => assert_eq!(p, "/model.zip"),
        _ => panic!("expected the archive"),
    }
    assert!(matches!(complete.ws_notification(), PhaseResponse::NotFoundInPhase(_, _)));
}
