use swupdate_bridge::ipc_message::{IpcMessage, MsgData, Status, DESC_LEN};
use swupdate_bridge::run_type::RunType;
use swupdate_bridge::source_type::SourceType;
use swupdate_bridge::status_line::{decimal_of, decode_description, format_status_line, status_line};
use swupdate_bridge::swupdate_request::{
    zero_buffer, SwupdateRequest, INFO_LEN, RUNNING_MODE_LEN, SOFTWARE_SET_LEN,
};

fn desc_with(text: &[u8]) -> Vec<u8> {
    let mut d = vec![0u8; DESC_LEN];
    d[..text.len()].copy_from_slice(text);
    d
}

#[test]
fn request_dry_run_discriminant() {
    let req = SwupdateRequest::new(true);
    assert_eq!(req.dry_run, RunType::Dryrun);
    let req = SwupdateRequest::new(false);
    assert_eq!(req.dry_run, RunType::Normal);
}

#[test]
fn request_defaults_are_zeroed() {
    let req = SwupdateRequest::new(false);
    assert_eq!(req.apiversion, 0);
    assert_eq!(req.source, SourceType::Local);
    assert_eq!(req.len, 0);
    assert!(!req.disable_store_swu);
    assert_eq!(req.info.len(), INFO_LEN);
    assert_eq!(req.software_set.len(), SOFTWARE_SET_LEN);
    assert_eq!(req.running_mode.len(), RUNNING_MODE_LEN);
    assert!(req.info.iter().all(|b| *b == 0));
    assert!(req.software_set.iter().all(|b| *b == 0));
    assert!(req.running_mode.iter().all(|b| *b == 0));
}

#[test]
fn wire_tag_codes() {
    assert_eq!(RunType::Normal.code(), 0);
    assert_eq!(RunType::Dryrun.code(), 1);
    assert_eq!(SourceType::Local.code(), 4);
    assert_eq!(SourceType::_Unknown.code(), 0);
    assert_eq!(SourceType::_ChunksDownloader.code(), 5);
}

#[test]
fn decode_stops_at_first_nul() {
    let buf = vec![72u8, 105u8, 0u8, 88u8, 88u8];
    assert_eq!(decode_description(&buf), b"Hi".to_vec());
}

#[test]
fn decode_without_nul_takes_full_capacity() {
    let buf = vec![65u8; 16];
    assert_eq!(decode_description(&buf), vec![65u8; 16]);
}

#[test]
fn decode_leading_nul_is_empty() {
    let buf = vec![0u8; 8];
    assert_eq!(decode_description(&buf), Vec::<u8>::new());
}

#[test]
fn decode_empty_buffer_is_empty() {
    let buf: Vec<u8> = Vec::new();
    assert_eq!(decode_description(&buf), Vec::<u8>::new());
}

#[test]
fn decimal_rendering_exact_values() {
    assert_eq!(decimal_of(0), b"0".to_vec());
    assert_eq!(decimal_of(7), b"7".to_vec());
    assert_eq!(decimal_of(12345), b"12345".to_vec());
    assert_eq!(decimal_of(-3), b"-3".to_vec());
    assert_eq!(decimal_of(i32::MAX), b"2147483647".to_vec());
    assert_eq!(decimal_of(i32::MIN), b"-2147483648".to_vec());
}

#[test]
fn status_line_exact_format() {
    let st = Status { current: 3, last_result: 0, error: 0, desc: desc_with(b"Installing") };
    let line = format_status_line(&st);
    assert_eq!(line, b"Status: 3 message: Installing\n".to_vec());
}

#[test]
fn status_line_negative_code_and_full_buffer() {
    let st = Status { current: -9, last_result: 0, error: 0, desc: vec![120u8; DESC_LEN] };
    let line = format_status_line(&st);
    let mut expected = b"Status: -9 message: ".to_vec();
    expected.extend(std::iter::repeat(120u8).take(DESC_LEN));
    expected.push(b'\n');
    assert_eq!(line, expected);
}

#[test]
fn message_status_case_is_formatted() {
    let st = Status { current: 1, last_result: 0, error: 0, desc: desc_with(b"ok") };
    let msg = IpcMessage { magic: 0, data: MsgData::Status(st) };
    assert_eq!(status_line(&msg), Some(b"Status: 1 message: ok\n".to_vec()));
}

#[test]
fn message_other_cases_are_ignored() {
    let msg = IpcMessage { magic: 0, data: MsgData::Notify };
    assert_eq!(status_line(&msg), None);
    let msg = IpcMessage { magic: 0, data: MsgData::default() };
    assert_eq!(status_line(&msg), None);
}

#[test]
fn default_message_is_raw() {
    assert!(matches!(MsgData::default(), MsgData::Msg));
}

#[test]
fn zero_buffer_has_requested_length() {
    let b = zero_buffer(5);
    assert_eq!(b, vec![0u8; 5]);
}
