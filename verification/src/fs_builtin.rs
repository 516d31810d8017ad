//! The file built-in: the semantics of the async file handle script sees, and
//! the decisions its methods make at the host boundary.
//!
//! A handle's three methods return promises backed by the async task bridge:
//! `content()` rewinds to the start and reads everything, `write(s)` writes
//! the argument's bytes at the cursor and resolves with the byte count, and
//! `seek(pos)` moves the cursor. `FileState` is the file as those operations
//! see it — its bytes and a cursor — and the laws below pin the read-back
//! behaviour. The embedder performs the operations on the real file; the
//! outcome functions here say exactly how each native result settles the
//! promise.

use vstd::prelude::*;
use vstd::string::StrSliceExecFns;
use vstd::utf8::encode_utf8;
use crate::paths::{append_bytes, append_range};
use crate::values::{AsyncTaskResult, AsyncTaskValue};

verus! {

/// A run of zeroes, as seeking past the end and writing leaves them.
pub open spec fn zeroes(n: nat) -> Seq<u8> {
    Seq::new(n, |i: int| 0u8)
}

/// The contents padded with zeroes out to `pos`, when `pos` lies past the
/// end.
pub open spec fn zero_pad(contents: Seq<u8>, pos: int) -> Seq<u8> {
    if pos > contents.len() {
        contents + zeroes((pos - contents.len()) as nat)
    } else {
        contents
    }
}

/// The contents after writing `data` at offset `pos`: bytes before `pos` are
/// kept (zero-padded when `pos` lies past the end), `data` stands at `pos`,
/// and bytes past the written range are kept.
pub open spec fn write_at(contents: Seq<u8>, pos: int, data: Seq<u8>) -> Seq<u8> {
    let padded = zero_pad(contents, pos);
    if pos + data.len() < padded.len() {
        padded.take(pos) + data + padded.skip(pos + data.len())
    } else {
        padded.take(pos) + data
    }
}

/// A file as the handle's methods see it: its bytes, and the cursor the next
/// write starts at.
pub struct FileState {
    contents: Vec<u8>,
    cursor: u64,
}

impl FileState {
    /// The file's bytes.
    pub closed spec fn data(self) -> Seq<u8> {
        self.contents@
    }

    /// The cursor: where the next write lands.
    pub closed spec fn pos(self) -> int {
        self.cursor as int
    }

    /// A freshly opened handle: the file's current bytes — opening does not
    /// truncate — with the cursor at the start.
    pub fn open(existing: Vec<u8>) -> (f: FileState)
        ensures
            f.data() == existing@,
            f.pos() == 0,
    {
        FileState { contents: existing, cursor: 0 }
    }

    /// Move the cursor to `position`, counted from the start. The contents
    /// are untouched.
    pub fn seek(&mut self, position: u64)
        ensures
            final(self).data() == old(self).data(),
            final(self).pos() == position,
    {
        self.cursor = position;
    }

    /// Rewind to the start and read everything: the complete current
    /// contents, whatever the cursor was before. The cursor ends past the
    /// last byte read.
    pub fn read_to_end(&mut self) -> (bytes: Vec<u8>)
        ensures
            bytes@ == old(self).data(),
            final(self).data() == old(self).data(),
            final(self).pos() == old(self).data().len(),
    {
        self.cursor = 0;
        let mut out: Vec<u8> = Vec::new();
        append_bytes(&mut out, self.contents.as_slice());
        proof {
            assert(out@ =~= self.contents@);
        }
        self.cursor = self.contents.len() as u64;
        out
    }

    /// Write all of `data` at the cursor and advance the cursor past it.
    /// Returns how many bytes were written: all of them.
    pub fn write(&mut self, data: &[u8]) -> (n: usize)
        requires
            old(self).pos() + data@.len() <= usize::MAX,
        ensures
            n == data@.len(),
            final(self).data() == write_at(old(self).data(), old(self).pos(), data@),
            final(self).pos() == old(self).pos() + n,
    {
        let ghost old_data = self.contents@;
        let ghost gpos = self.cursor as int;
        let target: usize = self.cursor as usize;
        let pref_end: usize = if target < self.contents.len() {
            target
        } else {
            self.contents.len()
        };
        let mut out: Vec<u8> = Vec::new();
        append_range(&mut out, self.contents.as_slice(), 0, pref_end);
        while out.len() < target
            invariant
                pref_end <= out@.len() <= target,
                out@ == old_data.take(pref_end as int) + zeroes((out@.len() - pref_end) as nat),
            decreases target - out@.len(),
        {
            out.push(0u8);
            proof {
                assert(out@ =~= old_data.take(pref_end as int) + zeroes(
                    (out@.len() - pref_end) as nat,
                ));
            }
        }
        append_bytes(&mut out, data);
        let suffix_start = target + data.len();
        if suffix_start < self.contents.len() {
            append_range(&mut out, self.contents.as_slice(), suffix_start, self.contents.len());
        }
        proof {
            let padded = zero_pad(old_data, gpos);
            if gpos > old_data.len() {
                assert(padded.take(gpos) =~= old_data.take(pref_end as int) + zeroes(
                    (gpos - old_data.len()) as nat,
                ));
            } else {
                assert(padded.take(gpos) =~= old_data.take(pref_end as int));
            }
            if gpos + data@.len() < padded.len() {
                assert(out@ =~= padded.take(gpos) + data@ + padded.skip(gpos + data@.len()));
            } else {
                assert(out@ =~= padded.take(gpos) + data@);
            }
        }
        self.contents = out;
        self.cursor = self.cursor + data.len() as u64;
        data.len()
    }
}

/// Written bytes are durable: after writing `data` at `pos`, the contents
/// hold exactly `data` at offsets `pos` up to `pos + data.len()`, and every
/// byte before `pos` is kept — so rewinding and reading the whole file hands
/// the written bytes back.
pub proof fn lemma_write_durable(contents: Seq<u8>, pos: int, data: Seq<u8>)
    requires
        0 <= pos,
    ensures
        write_at(contents, pos, data).len() >= pos + data.len(),
        write_at(contents, pos, data).subrange(pos, pos + data.len()) == data,
        forall|k: int|
            0 <= k < pos && k < contents.len() ==> write_at(contents, pos, data)[k] == contents[k],
{
    assert(write_at(contents, pos, data).subrange(pos, pos + data.len()) =~= data);
}

/// The position `seek` uses: the script argument coerced to an unsigned
/// 32-bit integer, or zero when the coercion failed.
pub fn seek_position(coerced: Option<u32>) -> (position: u32)
    ensures
        position == (match coerced {
            Some(v) => v,
            None => 0u32,
        }),
{
    match coerced {
        Some(v) => v,
        None => 0,
    }
}

/// What `write` does with its argument: a non-string argument is rejected
/// synchronously with a type error; a string's UTF-8 bytes are written.
pub enum WritePlan {
    /// Throw a type error into the calling script frame; no task is spawned.
    TypeError,
    /// Spawn the write of exactly these bytes.
    Write(Vec<u8>),
}

/// Decide `write`'s course from its argument: the argument's text when it is
/// a string, nothing otherwise.
pub fn plan_write(argument: Option<String>) -> (plan: WritePlan)
    ensures
        argument matches Some(s) ==> (plan matches WritePlan::Write(bytes) && bytes@ == encode_utf8(
            s@,
        )),
        argument is None <==> plan is TypeError,
{
    match argument {
        None => WritePlan::TypeError,
        Some(s) => WritePlan::Write(s.as_str().as_bytes_vec()),
    }
}

/// How the promise of `openFile` settles: an opened file resolves to its
/// descriptor number, a failure rejects with the error's text.
pub fn open_outcome(outcome: Result<i32, Vec<u8>>) -> (settled: AsyncTaskResult)
    ensures
        outcome matches Ok(fd) ==> settled == AsyncTaskResult::Resolve(AsyncTaskValue::Number(fd)),
        outcome matches Err(message) ==> settled == AsyncTaskResult::Reject(
            AsyncTaskValue::String(message),
        ),
{
    match outcome {
        Ok(fd) => AsyncTaskResult::Resolve(AsyncTaskValue::Number(fd)),
        Err(message) => AsyncTaskResult::Reject(AsyncTaskValue::String(message)),
    }
}

/// How the promise of `seek` settles: success resolves to undefined, a
/// failure rejects with the error's text.
pub fn seek_outcome(outcome: Result<(), Vec<u8>>) -> (settled: AsyncTaskResult)
    ensures
        outcome is Ok ==> settled == AsyncTaskResult::Resolve(AsyncTaskValue::Undefined),
        outcome matches Err(message) ==> settled == AsyncTaskResult::Reject(
            AsyncTaskValue::String(message),
        ),
{
    match outcome {
        Ok(_) => AsyncTaskResult::Resolve(AsyncTaskValue::Undefined),
        Err(message) => AsyncTaskResult::Reject(AsyncTaskValue::String(message)),
    }
}

/// How the promise of `content` settles: the bytes read resolve the promise
/// (script sees them bridged as text), a failure rejects with the error's
/// text.
pub fn content_outcome(outcome: Result<Vec<u8>, Vec<u8>>) -> (settled: AsyncTaskResult)
    ensures
        outcome matches Ok(bytes) ==> settled == AsyncTaskResult::Resolve(
            AsyncTaskValue::String(bytes),
        ),
        outcome matches Err(message) ==> settled == AsyncTaskResult::Reject(
            AsyncTaskValue::String(message),
        ),
{
    match outcome {
        Ok(bytes) => AsyncTaskResult::Resolve(AsyncTaskValue::String(bytes)),
        Err(message) => AsyncTaskResult::Reject(AsyncTaskValue::String(message)),
    }
}

/// How the promise of `write` settles: success resolves to the count of
/// bytes written, a failure rejects with the error's text. The count rides
/// the bridge as a 32-bit number, which bounds the writes this runtime can
/// report.
pub fn write_outcome(outcome: Result<usize, Vec<u8>>) -> (settled: AsyncTaskResult)
    requires
        outcome matches Ok(n) ==> n <= i32::MAX,
    ensures
        outcome matches Ok(n) ==> settled == AsyncTaskResult::Resolve(
            AsyncTaskValue::Number(n as i32),
        ),
        outcome matches Err(message) ==> settled == AsyncTaskResult::Reject(
            AsyncTaskValue::String(message),
        ),
{
    match outcome {
        Ok(n) => AsyncTaskResult::Resolve(AsyncTaskValue::Number(n as i32)),
        Err(message) => AsyncTaskResult::Reject(AsyncTaskValue::String(message)),
    }
}

} // verus!
