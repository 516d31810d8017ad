//! The value bridge: the closed set of scalar values that native futures hand
//! back to the engine, and how each is presented as an engine value.
//!
//! A `String` value carries raw bytes and is presented as text: the bytes
//! decoded as UTF-8, or the empty string when they are not valid UTF-8.
//! A `Number` is widened by the embedder to the engine's native double;
//! `Undefined` maps to the engine's undefined singleton.

use vstd::prelude::*;
use vstd::utf8::*;

verus! {

/// Tagged value carried across the native-to-engine bridge.
#[derive(Debug)]
pub enum AsyncTaskValue {
    String(Vec<u8>),
    Number(i32),
    Undefined,
}

/// How a completed task settles its promise: which resolver arm is invoked,
/// and with which bridged value.
#[derive(Debug)]
pub enum AsyncTaskResult {
    Resolve(AsyncTaskValue),
    Reject(AsyncTaskValue),
}

/// A completed task's delivery, sent from the worker that ran the future to
/// the event loop: which task finished, and how it settled.
#[derive(Debug)]
pub struct AsyncTaskMessage {
    pub task_id: u32,
    pub payload: AsyncTaskResult,
}

/// The text presented for a byte payload: the bytes decoded as UTF-8 when
/// they are valid, the empty string otherwise.
pub open spec fn bridged_text(bytes: Seq<u8>) -> Seq<char> {
    if valid_utf8(bytes) {
        decode_utf8(bytes)
    } else {
        Seq::empty()
    }
}

/// Relies on core::str::from_utf8: it returns `Ok` exactly when the input is
/// valid UTF-8, and the returned string views those bytes as characters.
#[verifier::external_body]
fn utf8_to_string(bytes: &[u8]) -> (r: Option<String>)
    ensures
        r is Some <==> valid_utf8(bytes@),
        r matches Some(s) ==> s@ == decode_utf8(bytes@),
{
    match core::str::from_utf8(bytes) {
        Ok(s) => Some(String::from_str(s)),
        Err(_) => None,
    }
}

/// The string a bridged `String` payload hands to the engine: its bytes
/// decoded as UTF-8, or the empty string when they are not valid UTF-8.
pub fn bridge_string_bytes(bytes: &Vec<u8>) -> (s: String)
    ensures
        s@ == bridged_text(bytes@),
{
    match utf8_to_string(bytes.as_slice()) {
        Some(s) => s,
        None => String::new(),
    }
}

} // verus!
