use chrono::{TimeZone, Utc};

use shellagotchi::daemon::ipc::protocol::{
    status_reply, Request, RequestOp, Response, PROTOCOL_VERSION,
};
use shellagotchi::daemon::ipc::server::{answer_line, handle_request, ServerState, MAX_LINE_BYTES};
use shellagotchi::daemon::install::{install_report, InstallOutcome, UNIT_FILE_CONTENTS, UNIT_FILE_NAME};
use shellagotchi::daemon::persist::{
    append_extension, corrupt_file_name, load_step, FileRead, LoadStep,
};
use shellagotchi::paths::{fallback_runtime_dir, SOCKET_FILE_NAME, STATE_FILE_NAME};
use shellagotchi::pet::state::{PetState, Species};

fn new_state() -> ServerState {
    ServerState { ping_count: 0 }
}

#[test]
fn handle_request_ping_increments_counter() {
    let mut state = new_state();
    let req = Request::new(RequestOp::Ping);

    let resp = handle_request(&mut state, &req);
    assert!(resp.ok);
    assert_eq!(state.ping_count, 1);

    let resp2 = handle_request(&mut state, &req);
    assert!(resp2.ok);
    assert_eq!(state.ping_count, 2);
}

#[test]
fn handle_request_unimplemented_ops_return_error() {
    let mut state = new_state();
    let req = Request::new(RequestOp::Status);

    let resp = handle_request(&mut state, &req);

    assert!(!resp.ok);
    assert!(resp.error.is_some());
    assert!(!resp.error.unwrap().is_empty());
}

#[test]
fn handle_request_unknown_op_returns_error() {
    let mut state = new_state();
    let req = Request::new(RequestOp::Unknown);

    let resp = handle_request(&mut state, &req);

    assert!(!resp.ok);
    assert!(resp.error.is_some());
}

#[test]
fn handle_request_error_texts() {
    let mut state = new_state();
    let feed = Request::new(RequestOp::Feed {
        exit_code: 0,
        duration_ms: 142,
        argv0: "cargo".into(),
        ts: 1_770_000_000,
    });
    assert_eq!(handle_request(&mut state, &feed).error.as_deref(), Some("not implemented yet"));
    let unknown = Request::new(RequestOp::Unknown);
    assert_eq!(handle_request(&mut state, &unknown).error.as_deref(), Some("unsupported op"));
    assert_eq!(state.ping_count, 0);
}

#[test]
fn request_new_carries_protocol_version() {
    let req = Request::new(RequestOp::Hatch {
        species: "dragon".into(),
    });
    assert_eq!(req.v, PROTOCOL_VERSION);
    assert_eq!(req.v, 1);
    assert_eq!(
        req.op,
        RequestOp::Hatch {
            species: "dragon".into()
        }
    );
}

#[test]
fn response_constructors() {
    let empty = Response::ok_empty();
    assert!(empty.ok && empty.state.is_none() && empty.prompt.is_none() && empty.error.is_none());

    let now = Utc.with_ymd_and_hms(2026, 1, 1, 12, 0, 0).unwrap().timestamp_millis();
    let pet = PetState::newborn("Rusty".into(), Species::Blob, now);
    let with_state = Response::ok_state(pet.clone());
    assert!(with_state.ok);
    assert_eq!(with_state.state, Some(pet));

    let prompt = Response::ok_prompt("o ^_^ 82%".to_string());
    assert!(prompt.ok);
    assert_eq!(prompt.prompt.as_deref(), Some("o ^_^ 82%"));

    let err = Response::err("pet is dead; run `shellagotchi hatch`");
    assert!(!err.ok);
    assert_eq!(err.error.as_deref(), Some("pet is dead; run `shellagotchi hatch`"));
}

#[test]
fn append_extension_keeps_existing_extension() {
    assert_eq!(append_extension(Some("json"), "tmp"), "json.tmp");
    assert_eq!(append_extension(None, "bak"), "bak");
}

#[test]
fn answer_line_refuses_long_lines_without_dispatching() {
    let mut state = new_state();
    let ping = Request::new(RequestOp::Ping);
    let resp = answer_line(&mut state, MAX_LINE_BYTES + 1, Some(&ping));
    assert!(!resp.ok);
    assert_eq!(resp.error.as_deref(), Some("line too long"));
    assert_eq!(state.ping_count, 0);
}

#[test]
fn answer_line_reports_malformed_json() {
    let mut state = new_state();
    let resp = answer_line(&mut state, 15, None);
    assert!(!resp.ok);
    assert_eq!(resp.error.as_deref(), Some("malformed request: invalid JSON"));
    assert_eq!(state.ping_count, 0);
}

#[test]
fn answer_line_dispatches_decoded_requests() {
    let mut state = new_state();
    let ping = Request::new(RequestOp::Ping);
    let resp = answer_line(&mut state, MAX_LINE_BYTES, Some(&ping));
    assert!(resp.ok);
    assert!(resp.error.is_none());
    assert_eq!(state.ping_count, 1);

    let status = Request::new(RequestOp::Status);
    let resp = answer_line(&mut state, 20, Some(&status));
    assert_eq!(resp.error.as_deref(), Some("not implemented yet"));
    assert_eq!(state.ping_count, 1);
}

#[test]
fn corrupt_file_name_appends_timestamp() {
    assert_eq!(corrupt_file_name("pet.json", 1_767_268_800), "pet.json.corrupt.1767268800");
    assert_eq!(corrupt_file_name("", 0), ".corrupt.0");
}

#[test]
fn embedded_unit_file_has_expected_shape() {
    assert!(UNIT_FILE_CONTENTS.contains("ExecStart="));
    assert!(UNIT_FILE_CONTENTS.contains("Restart=on-failure"));
    assert!(UNIT_FILE_CONTENTS.contains("Type=simple"));
    assert!(UNIT_FILE_CONTENTS.contains("[Install]"));
    assert!(UNIT_FILE_CONTENTS.contains("WantedBy=default.target"));
    // No sd-notify integration in this simplified unit.
    assert!(!UNIT_FILE_CONTENTS.contains("Type=notify"));
    assert!(!UNIT_FILE_CONTENTS.contains("WatchdogSec"));
    assert_eq!(UNIT_FILE_NAME, "shellagotchi.service");
}

#[test]
fn install_report_describes_each_outcome() {
    let unavailable = InstallOutcome::SystemdUnavailable {
        unit_path: "/home/u/.config/systemd/user/shellagotchi.service".into(),
    };
    assert_eq!(
        install_report(&unavailable),
        "Wrote systemd unit file to /home/u/.config/systemd/user/shellagotchi.service\n\
         No systemd user session was detected, so the unit was not enabled automatically.\n\
         Once a systemd user session is available, run:\n  \
         systemctl --user daemon-reload && systemctl --user enable --now shellagotchi.service\n\
         Or just start the daemon directly with:\n  \
         shellagotchi daemon\n"
    );

    let enabled = InstallOutcome::Enabled { unit_path: "/u/x.service".into() };
    let text = install_report(&enabled);
    assert!(text.starts_with("Wrote systemd unit file to /u/x.service\nEnabled and started shellagotchi.service.\n"));
    assert!(text.ends_with("  loginctl enable-linger $USER\n"));
    assert_eq!(text.lines().count(), 4);

    let failed = InstallOutcome::EnableFailed {
        unit_path: "/u/x.service".into(),
        detail: "Failed to connect to bus".into(),
    };
    let text = install_report(&failed);
    assert!(text.contains("Failed to enable/start the unit: Failed to connect to bus\n"));
    assert!(text.ends_with("You can retry manually with:\n  systemctl --user daemon-reload && systemctl --user enable --now shellagotchi.service\n"));
}

#[test]
fn load_step_trusts_primary_then_backup() {
    let now = Utc.with_ymd_and_hms(2026, 1, 1, 12, 0, 0).unwrap().timestamp_millis();
    let pet = PetState::newborn("Rusty".into(), Species::Blob, now);
    let older = PetState::newborn("Older".into(), Species::Cat, now);
    assert_eq!(load_step(FileRead::Missing, None), LoadStep::StartFresh);
    assert_eq!(load_step(FileRead::Unreadable, None), LoadStep::Fail);
    assert_eq!(load_step(FileRead::Parsed(pet.clone()), None), LoadStep::Use(pet.clone()));
    assert_eq!(load_step(FileRead::Corrupt, None), LoadStep::ReadBackup);
    assert_eq!(
        load_step(FileRead::Corrupt, Some(FileRead::Parsed(older.clone()))),
        LoadStep::Recover(older)
    );
    assert_eq!(load_step(FileRead::Corrupt, Some(FileRead::Corrupt)), LoadStep::SetAside);
    assert_eq!(load_step(FileRead::Corrupt, Some(FileRead::Missing)), LoadStep::SetAside);
    assert_eq!(load_step(FileRead::Corrupt, Some(FileRead::Unreadable)), LoadStep::SetAside);
}

#[test]
fn file_names_and_fallback_runtime_dir() {
    assert_eq!(STATE_FILE_NAME, "pet.json");
    assert_eq!(SOCKET_FILE_NAME, "sock");
    assert_eq!(fallback_runtime_dir(Some("alice")), "/tmp/shellagotchi-alice");
    assert_eq!(fallback_runtime_dir(None), "/tmp/shellagotchi-unknown");
}

#[test]
fn status_reply_unwraps_state_or_explains() {
    let now = Utc.with_ymd_and_hms(2026, 1, 1, 12, 0, 0).unwrap().timestamp_millis();
    let pet = PetState::newborn("Rusty".into(), Species::Blob, now);
    assert_eq!(status_reply(Response::ok_state(pet.clone()), "none"), Ok(pet));
    assert_eq!(
        status_reply(Response::err("pet is dead"), "none"),
        Err("daemon reported an error: pet is dead".to_string())
    );
    let bare = Response { ok: false, state: None, prompt: None, error: None };
    assert_eq!(status_reply(bare.clone(), "none"), Err("daemon reported an error: none".to_string()));
    assert_eq!(status_reply(bare, ""), Err("daemon reported an error: ".to_string()));
    assert_eq!(
        status_reply(Response::ok_empty(), "none"),
        Err("daemon's status response was missing pet state".to_string())
    );
}
