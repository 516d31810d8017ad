use zjs::fs_builtin::{
    content_outcome, open_outcome, plan_write, seek_outcome, seek_position, write_outcome,
    FileState, WritePlan,
};
use zjs::values::{bridge_string_bytes, AsyncTaskResult, AsyncTaskValue};

#[test]
fn bridge_decodes_valid_utf8() {
    assert_eq!(bridge_string_bytes(&b"hello".to_vec()), "hello".to_string());
}

#[test]
fn bridge_turns_invalid_utf8_into_empty_string() {
    assert_eq!(bridge_string_bytes(&vec![0xff, 0xfe, 0x41]), String::new());
}

#[test]
fn bridge_of_empty_bytes_is_empty() {
    assert_eq!(bridge_string_bytes(&Vec::new()), String::new());
}

#[test]
fn file_round_trip_write_seek_content() {
    // write "hello", rewind, read back: "hello", and the write reported 5
    let mut file = FileState::open(Vec::new());
    let n = file.write(b"hello");
    assert_eq!(n, 5);
    file.seek(0);
    let bytes = file.read_to_end();
    assert_eq!(bytes, b"hello".to_vec());
    assert_eq!(bridge_string_bytes(&bytes), "hello".to_string());
}

#[test]
fn content_reads_everything_wherever_the_cursor_was() {
    let mut file = FileState::open(b"abcdef".to_vec());
    file.seek(4);
    assert_eq!(file.read_to_end(), b"abcdef".to_vec());
}

#[test]
fn write_overwrites_at_cursor_and_keeps_the_rest() {
    let mut file = FileState::open(b"abcdef".to_vec());
    file.seek(2);
    let n = file.write(b"XY");
    assert_eq!(n, 2);
    assert_eq!(file.read_to_end(), b"abXYef".to_vec());
}

#[test]
fn write_past_end_pads_with_zeroes() {
    let mut file = FileState::open(Vec::new());
    file.seek(3);
    file.write(b"z");
    assert_eq!(file.read_to_end(), vec![0, 0, 0, b'z']);
}

#[test]
fn multibyte_text_survives_the_write_read_bridge() {
    // the plan takes the string's UTF-8 bytes; reading them back and bridging
    // restores the text
    let mut file = FileState::open(Vec::new());
    let bytes = match plan_write(Some("h\u{e9}llo".to_string())) {
        WritePlan::Write(bytes) => bytes,
        WritePlan::TypeError => panic!("a string argument is written"),
    };
    let n = file.write(&bytes);
    assert_eq!(n, 6);
    file.seek(0);
    let read_back = file.read_to_end();
    assert_eq!(bridge_string_bytes(&read_back), "h\u{e9}llo".to_string());
}

#[test]
fn seek_position_defaults_to_zero_on_failed_coercion() {
    assert_eq!(seek_position(None), 0);
    assert_eq!(seek_position(Some(9)), 9);
}

#[test]
fn write_plan_rejects_non_string_argument() {
    assert!(matches!(plan_write(None), WritePlan::TypeError));
}

#[test]
fn write_plan_takes_the_utf8_bytes() {
    match plan_write(Some("h\u{e9}llo".to_string())) {
        WritePlan::Write(bytes) => {
            assert_eq!(bytes, "h\u{e9}llo".as_bytes().to_vec());
            assert_eq!(bytes.len(), 6);
        }
        WritePlan::TypeError => panic!("a string argument is written"),
    }
}

#[test]
fn open_resolves_with_descriptor_and_rejects_with_error_text() {
    assert!(matches!(
        open_outcome(Ok(5)),
        AsyncTaskResult::Resolve(AsyncTaskValue::Number(5))
    ));
    let message = b"No such file or directory (os error 2)".to_vec();
    match open_outcome(Err(message.clone())) {
        AsyncTaskResult::Reject(AsyncTaskValue::String(payload)) => {
            assert_eq!(payload, message);
        }
        _ => panic!("an open failure rejects with the error text"),
    }
}

#[test]
fn seek_resolves_with_undefined() {
    assert!(matches!(
        seek_outcome(Ok(())),
        AsyncTaskResult::Resolve(AsyncTaskValue::Undefined)
    ));
    assert!(matches!(
        seek_outcome(Err(b"bad seek".to_vec())),
        AsyncTaskResult::Reject(AsyncTaskValue::String(_))
    ));
}

#[test]
fn content_resolves_with_the_bytes_read() {
    match content_outcome(Ok(b"hello".to_vec())) {
        AsyncTaskResult::Resolve(AsyncTaskValue::String(bytes)) => {
            assert_eq!(bytes, b"hello".to_vec());
        }
        _ => panic!("a successful read resolves with the bytes"),
    }
}

#[test]
fn write_resolves_with_the_byte_count() {
    assert!(matches!(
        write_outcome(Ok(5)),
        AsyncTaskResult::Resolve(AsyncTaskValue::Number(5))
    ));
    assert!(matches!(
        write_outcome(Err(b"disk full".to_vec())),
        AsyncTaskResult::Reject(AsyncTaskValue::String(_))
    ));
}
