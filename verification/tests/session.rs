use swupdate_bridge::bridge::{Phase, Session, UpdateError};
use swupdate_bridge::ipc_message::{IpcMessage, MsgData, Status, DESC_LEN};
use swupdate_bridge::run_type::RunType;
use swupdate_bridge::source::FileSource;
use swupdate_bridge::status_line::status_line;

fn desc_with(text: &[u8]) -> Vec<u8> {
    let mut d = vec![0u8; DESC_LEN];
    d[..text.len()].copy_from_slice(text);
    d
}

#[test]
fn source_close_is_idempotent() {
    let mut src = FileSource::new();
    assert!(src.record_open(5).is_ok());
    assert_eq!(src.close(), Some(5));
    assert_eq!(src.close(), None);
    assert_eq!(src.close(), None);
    assert_eq!(src.fd, None);
}

#[test]
fn source_open_failure_leaves_slot_empty() {
    let mut src = FileSource::new();
    assert_eq!(src.record_open(-1), Err(UpdateError::SourceOpen));
    assert_eq!(src.fd, None);
    assert_eq!(src.close(), None);
}

#[test]
fn missing_path_fails_before_engine_start() {
    let mut session = Session::new(false);
    let r = session.source_opened(-1);
    assert_eq!(r.err(), Some(UpdateError::SourceOpen));
    assert_eq!(session.phase, Phase::Failed);
    assert_eq!(session.source.fd, None);
}

#[test]
fn engine_start_failure_closes_source_once() {
    let mut session = Session::new(false);
    assert!(session.source_opened(9).is_ok());
    let (released, r) = session.engine_started(-1);
    assert_eq!(released, Some(9));
    assert_eq!(r, Err(UpdateError::EngineStart(-1)));
    assert_eq!(session.phase, Phase::Failed);
    assert_eq!(session.source.fd, None);
}

#[test]
fn dry_run_request_reaches_the_start_call() {
    let mut session = Session::new(true);
    let req = session.source_opened(4).unwrap();
    assert_eq!(req.dry_run, RunType::Dryrun);
    let mut session = Session::new(false);
    let req = session.source_opened(4).unwrap();
    assert_eq!(req.dry_run, RunType::Normal);
}

#[test]
fn empty_image_completes_with_no_status() {
    let mut session = Session::new(false);
    assert!(session.source_opened(3).is_ok());
    let (released, r) = session.engine_started(0);
    assert_eq!(released, None);
    assert!(r.is_ok());
    assert_eq!(session.phase, Phase::Running);
    let released = session.completed();
    assert_eq!(released, Some(3));
    assert_eq!(session.phase, Phase::Complete);
    assert_eq!(session.source.fd, None);
}

#[test]
fn two_status_lines_arrive_in_order_before_completion() {
    let mut session = Session::new(false);
    assert!(session.source_opened(3).is_ok());
    let (_, r) = session.engine_started(0);
    assert!(r.is_ok());

    let mut lines: Vec<Vec<u8>> = Vec::new();
    let first = IpcMessage {
        magic: 0,
        data: MsgData::Status(Status {
            current: 1,
            last_result: 0,
            error: 0,
            desc: desc_with(b"download"),
        }),
    };
    let second = IpcMessage {
        magic: 0,
        data: MsgData::Status(Status {
            current: 2,
            last_result: 0,
            error: 0,
            desc: desc_with(b"install"),
        }),
    };
    lines.push(status_line(&first).unwrap());
    lines.push(status_line(&second).unwrap());
    assert_eq!(session.phase, Phase::Running);

    assert_eq!(session.completed(), Some(3));
    assert_eq!(
        lines,
        vec![
            b"Status: 1 message: download\n".to_vec(),
            b"Status: 2 message: install\n".to_vec(),
        ]
    );
}

#[test]
fn completion_before_the_wait_still_ends_the_session() {
    let mut session = Session::new(false);
    assert!(session.source_opened(8).is_ok());
    let (_, r) = session.engine_started(1);
    assert!(r.is_ok());
    let released = session.completed();
    assert_eq!(released, Some(8));
    assert_eq!(session.phase, Phase::Complete);
}

#[test]
fn error_descriptions() {
    assert_eq!(UpdateError::SourceOpen.describe(), "unable to open the update source file");
    assert_eq!(UpdateError::EngineStart(-2).describe(), "software update failed to start");
}
