use vstd::prelude::*;
use crate::chunks::byte_len;

verus! {

/// Where the next read of the log starts: the cursor, or the start of the file
/// when the file has shrunk below the cursor (truncation or rotation).
pub open spec fn start_offset(position: u64, file_len: u64) -> u64 {
    if position > file_len {
        0
    } else {
        position
    }
}

/// Positions the cursor for a read of a file of `file_len` bytes, and returns
/// the offset to read from.
pub fn open_reader(position: &mut u64, file_len: u64) -> (offset: u64)
    ensures
        offset == start_offset(*old(position), file_len),
        *final(position) == offset,
        offset <= file_len,
{
    if *position > file_len {
        *position = 0;
    }
    *position
}

/// Takes what a read from the cursor returned, `bytes_read` bytes of text:
/// nothing when no byte was read, else the text, with the cursor moved past the bytes read.
pub fn read_new_content(position: &mut u64, bytes_read: u64, buffer: String) -> (r: Option<String>)
    requires
        bytes_read == byte_len(buffer@),
        *old(position) + bytes_read <= u64::MAX,
    ensures
        bytes_read == 0 ==> r is None && *final(position) == *old(position),
        bytes_read > 0 ==> r == Some(buffer) && *final(position) == *old(position) + bytes_read,
{
    if bytes_read == 0 {
        return None;
    }
    *position = *position + bytes_read;
    Some(buffer)
}

/// The cursor when streaming starts: zero when the whole file is forwarded,
/// else the file's length when it appeared (zero when that is unknown).
pub fn initial_position(from_start: bool, file_len: Option<u64>) -> (r: u64)
    ensures
        r == if from_start {
            0
        } else {
            match file_len {
                Some(n) => n,
                None => 0,
            }
        },
{
    if from_start {
        0
    } else {
        match file_len {
            Some(n) => n,
            None => 0,
        }
    }
}

} // verus!
