//! Handles of the operating system as plain values, and the reading of what
//! its calls report. The calls themselves are made elsewhere: every function
//! here starts from the values that a call has handed back.

use vstd::prelude::*;
use crate::error::{Error, NotifyResult, R};

verus! {

/// The code of a read that completed with more data than its buffer holds.
pub const ERROR_MORE_DATA: i32 = 234;

/// The code of a call that was refused access; on a watched directory it
/// usually means that the directory is gone.
pub const ERROR_ACCESS_DENIED: i32 = 5;

/// The code of a read that was cancelled.
pub const ERROR_OPERATION_ABORTED: i32 = 995;

/// The value of the handle that stands for "no handle".
pub const INVALID_HANDLE_VALUE: isize = -1;

/// The value of the null handle.
pub const NULL_HANDLE_VALUE: isize = 0;

/// A handle of the operating system, held by its numeric value.
#[derive(Clone, Copy, PartialEq, Eq, Debug, Hash, Structural)]
pub struct HANDLE(pub isize);

/// The handle that stands for "no handle".
pub fn invalid_handle() -> (h: HANDLE)
    ensures
        h == HANDLE(INVALID_HANDLE_VALUE),
{
    HANDLE(INVALID_HANDLE_VALUE)
}

/// The null handle.
pub fn null_handle() -> (h: HANDLE)
    ensures
        h == HANDLE(NULL_HANDLE_VALUE),
{
    HANDLE(NULL_HANDLE_VALUE)
}

/// An open directory together with what identifies it on its volume. Two
/// paths lead to the same directory exactly if volume and index agree.
#[derive(Clone, Copy, PartialEq, Eq, Debug, Structural)]
pub struct INode {
    pub handle: HANDLE,
    pub volume: u32,
    pub index: u64,
}

impl INode {
    /// The pair of volume and index by which the directory is known.
    pub open spec fn identity(&self) -> (u32, u64) {
        (self.volume, self.index)
    }
}

/// What the operating system tells about an open file, as far as a notifier
/// reads it.
#[derive(Clone, Copy, PartialEq, Eq, Debug, Structural)]
pub struct FileInformation {
    pub volume_serial_number: u32,
    pub file_index_high: u32,
    pub file_index_low: u32,
}

/// The failure that carries the error code `code`.
pub fn last_error<T>(code: i32) -> (r: NotifyResult<T>)
    ensures
        r == Err::<T, Error>(Error::Io(code)),
{
    Err(Error::Io(code))
}

/// The result of a call that reports failure by returning zero.
pub open spec fn spec_win_bool(status: i32, code: i32) -> R {
    if status == 0 {
        Err(Error::Io(code))
    } else {
        Ok(())
    }
}

/// The result of a call that reports failure by returning the invalid handle.
pub open spec fn spec_win_handle(raw: isize, code: i32) -> NotifyResult<HANDLE> {
    if raw == INVALID_HANDLE_VALUE {
        Err(Error::Io(code))
    } else {
        Ok(HANDLE(raw))
    }
}

/// Reads the outcome of a call that reports failure by returning zero:
/// `status` is what the call returned, `code` the error code that was current
/// after it.
pub fn win_bool(status: i32, code: i32) -> (r: R)
    ensures
        r == spec_win_bool(status, code),
{
    if status == 0 {
        last_error(code)
    } else {
        Ok(())
    }
}

/// Reads the outcome of a call that reports failure by returning the invalid
/// handle: `raw` is the handle value that the call returned, `code` the error
/// code that was current after it.
pub fn win_handle(raw: isize, code: i32) -> (r: NotifyResult<HANDLE>)
    ensures
        r == spec_win_handle(raw, code),
{
    if raw == INVALID_HANDLE_VALUE {
        last_error(code)
    } else {
        Ok(HANDLE(raw))
    }
}

/// Reads the outcome of taking a completion from the completion port.
pub fn get_queued_completion_status(status: i32, code: i32) -> (r: R)
    ensures
        r == spec_win_bool(status, code),
{
    win_bool(status, code)
}

/// Reads the outcome of posting a wake-up to the completion port.
pub fn post_queued_completion_status(status: i32, code: i32) -> (r: R)
    ensures
        r == spec_win_bool(status, code),
{
    win_bool(status, code)
}

/// Reads the outcome of creating a completion port, or of binding a file to
/// one.
pub fn create_io_completion_port(raw: isize, code: i32) -> (r: NotifyResult<HANDLE>)
    ensures
        r == spec_win_handle(raw, code),
{
    win_handle(raw, code)
}

/// Reads the outcome of closing a handle.
pub fn close_handle(status: i32, code: i32) -> (r: R)
    ensures
        r == spec_win_bool(status, code),
{
    win_bool(status, code)
}

/// Reads the outcome of cancelling the pending I/O of a handle.
pub fn cancel_io(status: i32, code: i32) -> (r: R)
    ensures
        r == spec_win_bool(status, code),
{
    win_bool(status, code)
}

/// Reads the outcome of opening a directory for watching.
pub fn file_handle(raw: isize, code: i32) -> (r: NotifyResult<HANDLE>)
    ensures
        r == spec_win_handle(raw, code),
{
    win_handle(raw, code)
}

/// Reads the outcome of submitting an asynchronous read of directory changes.
pub fn read_directory_changes(status: i32, code: i32) -> (r: R)
    ensures
        r == spec_win_bool(status, code),
{
    win_bool(status, code)
}

/// The file index made of its two halves.
pub open spec fn spec_file_index(high: u32, low: u32) -> u64 {
    (high as u64) << 32 | (low as u64)
}

proof fn lemma_file_index(high: u32, low: u32)
    ensures
        spec_file_index(high, low) == high as int * 0x1_0000_0000 + low as int,
{
    let h: u64 = high as u64;
    let l: u64 = low as u64;
    assert((h << 32 | l) == h * 0x1_0000_0000 + l) by (bit_vector)
        requires
            h <= 0xffff_ffff,
            l <= 0xffff_ffff,
    ;
}

/// The directory behind `handle`, identified by what the operating system
/// told about it: its volume's serial number and its file index, which is
/// the number whose upper half is `file_index_high` and whose lower half is
/// `file_index_low`.
pub fn file_inode(handle: HANDLE, info: FileInformation) -> (r: INode)
    ensures
        r.handle == handle,
        r.volume == info.volume_serial_number,
        r.index == spec_file_index(info.file_index_high, info.file_index_low),
        r.index == info.file_index_high as int * 0x1_0000_0000 + info.file_index_low as int,
{
    proof {
        lemma_file_index(info.file_index_high, info.file_index_low);
    }
    INode {
        handle,
        volume: info.volume_serial_number,
        index: (info.file_index_high as u64) << 32 | (info.file_index_low as u64),
    }
}

} // verus!
