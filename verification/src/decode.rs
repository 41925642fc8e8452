//! The decoding of the records that a completed read of directory changes
//! leaves in its buffer.
//!
//! A record is, in little-endian byte order: the distance in bytes to the
//! next record, or zero in the last one (4 bytes); the action (4 bytes); the
//! length of the name in bytes (4 bytes); and the name in UTF-16 code units.

use vstd::prelude::*;
use crate::operations::{Operations, ACCESS, ATTRIB, CREATE, DELETE, MODIFY, MOVE};
use crate::protocol::Change;

verus! {

/// The action of a record that reports an entry added.
pub const FILE_ACTION_ADDED: u32 = 1;

/// The action of a record that reports an entry removed.
pub const FILE_ACTION_REMOVED: u32 = 2;

/// The action of a record that reports an entry modified.
pub const FILE_ACTION_MODIFIED: u32 = 3;

/// The action of a record that reports the old name of a renamed entry.
pub const FILE_ACTION_RENAMED_OLD_NAME: u32 = 4;

/// The action of a record that reports the new name of a renamed entry.
pub const FILE_ACTION_RENAMED_NEW_NAME: u32 = 5;

/// The number of bytes of a record in front of its name.
pub const HEADER: usize = 12;

/// One record of the buffer: what happened, and the name of the entry it
/// happened to in UTF-16 code units.
#[derive(Clone, PartialEq, Eq, Debug)]
pub struct Notification {
    pub action: u32,
    pub name: Vec<u16>,
}

/// The mathematical value of a `Notification`.
pub ghost struct Record {
    pub action: u32,
    pub name: Seq<u16>,
}

impl View for Notification {
    type V = Record;

    open spec fn view(&self) -> Record {
        Record { action: self.action, name: self.name@ }
    }
}

/// The values of a run of notifications, in order.
pub open spec fn records_of(s: Seq<Notification>) -> Seq<Record> {
    s.map_values(|n: Notification| n@)
}

/// The number that the two bytes at `at` hold.
pub open spec fn u16_at(bytes: Seq<u8>, at: int) -> int {
    bytes[at] + 0x100 * bytes[at + 1]
}

/// The number that the four bytes at `at` hold.
pub open spec fn u32_at(bytes: Seq<u8>, at: int) -> int {
    bytes[at] + 0x100 * bytes[at + 1] + 0x1_0000 * bytes[at + 2] + 0x100_0000 * bytes[at + 3]
}

/// Whether a whole record stands at `at`: its header and its name lie within
/// the bytes, and the name is made of whole code units.
pub open spec fn record_at(bytes: Seq<u8>, at: int) -> bool {
    &&& 0 <= at
    &&& at + HEADER <= bytes.len()
    &&& u32_at(bytes, at + 8) % 2 == 0
    &&& at + HEADER + u32_at(bytes, at + 8) <= bytes.len()
}

/// The name of the record at `at`.
pub open spec fn name_at(bytes: Seq<u8>, at: int) -> Seq<u16> {
    Seq::new(
        (u32_at(bytes, at + 8) / 2) as nat,
        |i: int| u16_at(bytes, at + HEADER + 2 * i) as u16,
    )
}

/// The records that stand in `bytes` from `at` on: the record at `at` and
/// those that follow it, as far as whole records stand where the distances
/// point. A distance of zero ends the chain, and so does one that points
/// beyond the bytes.
pub open spec fn records_from(bytes: Seq<u8>, at: int) -> Seq<Record>
    decreases bytes.len() - at,
{
    if !record_at(bytes, at) {
        Seq::empty()
    } else {
        let record = Record { action: u32_at(bytes, at + 4) as u32, name: name_at(bytes, at) };
        if u32_at(bytes, at) <= 0 || at + u32_at(bytes, at) > bytes.len() {
            seq![record]
        } else {
            seq![record] + records_from(bytes, at + u32_at(bytes, at))
        }
    }
}

fn read_u16(bytes: &[u8], at: usize) -> (r: u16)
    requires
        at + 2 <= bytes@.len(),
    ensures
        r == u16_at(bytes@, at as int),
{
    let low: u16 = bytes[at] as u16;
    let high: u16 = bytes[at + 1] as u16;
    low + 0x100 * high
}

fn read_u32(bytes: &[u8], at: usize) -> (r: u32)
    requires
        at + 4 <= bytes@.len(),
    ensures
        r == u32_at(bytes@, at as int),
{
    let b0: u32 = bytes[at] as u32;
    let b1: u32 = bytes[at + 1] as u32;
    let b2: u32 = bytes[at + 2] as u32;
    let b3: u32 = bytes[at + 3] as u32;
    b0 + 0x100 * b1 + 0x1_0000 * b2 + 0x100_0000 * b3
}

/// Decodes the records of a buffer, in the order in which they stand.
/// Decoding ends at the last record of the chain, or before the first that
/// does not lie whole within the buffer.
pub fn decode(bytes: &[u8]) -> (notifications: Vec<Notification>)
    ensures
        records_of(notifications@) == records_from(bytes@, 0),
{
    let mut notifications: Vec<Notification> = Vec::new();
    let mut at: usize = 0;
    let mut more: bool = true;
    while more
        invariant
            at <= bytes@.len(),
            more ==> records_from(bytes@, 0) == records_of(notifications@) + records_from(
                bytes@,
                at as int,
            ),
            !more ==> records_from(bytes@, 0) == records_of(notifications@),
        decreases bytes@.len() - at + (if more { 1int } else { 0int }),
    {
        let len: usize = bytes.len();
        if len - at < HEADER {
            more = false;
        } else {
            let distance: u32 = read_u32(bytes, at);
            let action: u32 = read_u32(bytes, at + 4);
            let length: u32 = read_u32(bytes, at + 8);
            if length % 2 != 0 || (len - at - HEADER) < length as usize {
                more = false;
            } else {
                let units: usize = (length / 2) as usize;
                let mut name: Vec<u16> = Vec::new();
                let mut i: usize = 0;
                while i < units
                    invariant
                        i <= units,
                        units == length / 2,
                        length % 2 == 0,
                        at + HEADER + length <= bytes@.len(),
                        at + HEADER + 2 * units <= bytes@.len(),
                        bytes@.len() <= usize::MAX,
                        name@.len() == i,
                        forall|k: int|
                            0 <= k < i ==> #[trigger] name@[k] == u16_at(
                                bytes@,
                                at + HEADER + 2 * k,
                            ) as u16,
                    decreases units - i,
                {
                    name.push(read_u16(bytes, at + HEADER + 2 * i));
                    i += 1;
                }
                assert(name@ =~= name_at(bytes@, at as int));
                notifications.push(Notification { action, name });
                if distance == 0 || (len - at) < distance as usize {
                    more = false;
                } else {
                    at = at + distance as usize;
                }
            }
        }
    }
    notifications
}

/// The change kind that an action stands for: an entry added is created, one
/// removed is deleted, one renamed is moved, under its old name and under
/// its new one; an action that is not known stands for nothing.
pub open spec fn spec_action_bits(action: u32) -> u32 {
    if action == FILE_ACTION_ADDED {
        CREATE
    } else if action == FILE_ACTION_REMOVED {
        DELETE
    } else if action == FILE_ACTION_MODIFIED {
        MODIFY
    } else if action == FILE_ACTION_RENAMED_OLD_NAME || action == FILE_ACTION_RENAMED_NEW_NAME {
        MOVE
    } else {
        0
    }
}

/// The change kind that an action stands for.
pub fn action_operation(action: u32) -> (r: Operations)
    ensures
        r@ == spec_action_bits(action),
{
    let bits: u32 = if action == FILE_ACTION_ADDED {
        CREATE
    } else if action == FILE_ACTION_REMOVED {
        DELETE
    } else if action == FILE_ACTION_MODIFIED {
        MODIFY
    } else if action == FILE_ACTION_RENAMED_OLD_NAME || action == FILE_ACTION_RENAMED_NEW_NAME {
        MOVE
    } else {
        0
    };
    assert(bits & crate::operations::ALL == bits) by (bit_vector)
        requires
            bits == 0 || bits == 1 || bits == 2 || bits == 4 || bits == 0x20,
    ;
    Operations::from_bits_truncate(bits)
}

/// The filter bit for changes of file names: creation, deletion, renaming.
pub const FILE_NOTIFY_CHANGE_FILE_NAME: u32 = 0x001;

/// The filter bit for changes of directory names.
pub const FILE_NOTIFY_CHANGE_DIR_NAME: u32 = 0x002;

/// The filter bit for changes of attributes.
pub const FILE_NOTIFY_CHANGE_ATTRIBUTES: u32 = 0x004;

/// The filter bit for changes of size.
pub const FILE_NOTIFY_CHANGE_SIZE: u32 = 0x008;

/// The filter bit for changes of the time of the last write.
pub const FILE_NOTIFY_CHANGE_LAST_WRITE: u32 = 0x010;

/// The filter bit for changes of the time of the last access.
pub const FILE_NOTIFY_CHANGE_LAST_ACCESS: u32 = 0x020;

/// The filter bit for changes of the security descriptor.
pub const FILE_NOTIFY_CHANGE_SECURITY: u32 = 0x100;

/// The filter bits of a read that serve the subscription `subscribed`:
/// names for creation, deletion and moves; size and last write for
/// modification; attributes and security for changes of metadata; last
/// access for reads.
pub open spec fn spec_notify_filter(subscribed: u32) -> u32 {
    (if subscribed & (CREATE | DELETE | MOVE) != 0 {
        FILE_NOTIFY_CHANGE_FILE_NAME | FILE_NOTIFY_CHANGE_DIR_NAME
    } else {
        0
    }) | (if subscribed & MODIFY != 0 {
        FILE_NOTIFY_CHANGE_SIZE | FILE_NOTIFY_CHANGE_LAST_WRITE
    } else {
        0
    }) | (if subscribed & ATTRIB != 0 {
        FILE_NOTIFY_CHANGE_ATTRIBUTES | FILE_NOTIFY_CHANGE_SECURITY
    } else {
        0
    }) | (if subscribed & ACCESS != 0 {
        FILE_NOTIFY_CHANGE_LAST_ACCESS
    } else {
        0
    })
}

/// The filter bits with which a read is submitted for a subscription.
pub fn notify_filter(subscribe: Operations) -> (r: u32)
    ensures
        r == spec_notify_filter(subscribe@),
{
    let subscribed: u32 = subscribe.bits();
    let names: u32 = if subscribed & (CREATE | DELETE | MOVE) != 0 {
        FILE_NOTIFY_CHANGE_FILE_NAME | FILE_NOTIFY_CHANGE_DIR_NAME
    } else {
        0
    };
    let contents: u32 = if subscribed & MODIFY != 0 {
        FILE_NOTIFY_CHANGE_SIZE | FILE_NOTIFY_CHANGE_LAST_WRITE
    } else {
        0
    };
    let metadata: u32 = if subscribed & ATTRIB != 0 {
        FILE_NOTIFY_CHANGE_ATTRIBUTES | FILE_NOTIFY_CHANGE_SECURITY
    } else {
        0
    };
    let reads: u32 = if subscribed & ACCESS != 0 {
        FILE_NOTIFY_CHANGE_LAST_ACCESS
    } else {
        0
    };
    names | contents | metadata | reads
}

/// What `String::from_utf16_lossy` of the standard library makes of the code
/// units `units`: the text they encode, with the replacement character in
/// place of each unpaired surrogate.
pub uninterp spec fn utf16_lossy(units: Seq<u16>) -> Seq<char>;

/// `String::from_utf16_lossy`: the text that UTF-16 code units encode. The
/// result depends on the code units alone.
#[verifier::external_body]
fn from_utf16_lossy(units: &Vec<u16>) -> (text: String)
    ensures
        text@ == utf16_lossy(units@),
{
    String::from_utf16_lossy(units)
}

/// The change that has the relative path `relative` and the action `action`.
pub fn change_of(relative: String, action: u32) -> (change: Change)
    ensures
        change.relative == relative,
        change.operation@ == spec_action_bits(action),
{
    Change { relative, operation: action_operation(action) }
}

/// The change that a notification reports: its name as text, and the change
/// kind that its action stands for.
pub fn to_change(notification: &Notification) -> (change: Change)
    ensures
        change.relative@ == utf16_lossy(notification.name@),
        change.operation@ == spec_action_bits(notification.action),
{
    change_of(from_utf16_lossy(&notification.name), notification.action)
}

/// The changes that the records of a buffer report, in order.
pub fn decode_changes(bytes: &[u8]) -> (changes: Vec<Change>)
    ensures
        changes@.len() == records_from(bytes@, 0).len(),
        forall|k: int|
            0 <= k < changes@.len() ==> {
                &&& (#[trigger] changes@[k]).relative@ == utf16_lossy(
                    records_from(bytes@, 0)[k].name,
                )
                &&& changes@[k].operation@ == spec_action_bits(records_from(bytes@, 0)[k].action)
            },
{
    let notifications = decode(bytes);
    let mut changes: Vec<Change> = Vec::new();
    let mut i: usize = 0;
    while i < notifications.len()
        invariant
            i <= notifications.len(),
            records_of(notifications@) == records_from(bytes@, 0),
            changes@.len() == i,
            forall|k: int|
                0 <= k < i ==> {
                    &&& (#[trigger] changes@[k]).relative@ == utf16_lossy(notifications@[k].name@)
                    &&& changes@[k].operation@ == spec_action_bits(notifications@[k].action)
                },
        decreases notifications.len() - i,
    {
        changes.push(to_change(&notifications[i]));
        i += 1;
    }
    assert forall|k: int| 0 <= k < changes@.len() implies {
        &&& (#[trigger] changes@[k]).relative@ == utf16_lossy(records_from(bytes@, 0)[k].name)
        &&& changes@[k].operation@ == spec_action_bits(records_from(bytes@, 0)[k].action)
    } by {
        assert(records_of(notifications@)[k] == notifications@[k]@);
    }
    changes
}

} // verus!
