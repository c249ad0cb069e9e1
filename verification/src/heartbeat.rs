use vstd::prelude::*;
use vstd::utf8::*;

verus! {

/// The message the running process sends to its successor to say that it is
/// still alive.
pub const HEARTBEAT: [u8; 9] = [73, 32, 115, 117, 102, 102, 101, 114, 46];

/// How many bytes a heartbeat has.
pub const HEARTBEAT_LEN: usize = 9;

/// The bytes of the heartbeat: "I suffer.".
pub open spec fn heartbeat_bytes() -> Seq<u8> {
    seq![73u8, 32u8, 115u8, 117u8, 102u8, 102u8, 101u8, 114u8, 46u8]
}

/// The heartbeat message.
pub fn heartbeat() -> (message: [u8; 9])
    ensures
        message@ == heartbeat_bytes(),
{
    let message = HEARTBEAT;
    assert(message@ =~= heartbeat_bytes());
    message
}


/// Calls `std::str::from_utf8` and tells whether it accepted the bytes.
///
/// Trusted: std accepts exactly the well-formed UTF-8 byte sequences, which
/// vstd defines as `valid_utf8`.
#[verifier::external_body]
fn is_utf8(bytes: &[u8]) -> (valid: bool)
    ensures
        valid == valid_utf8(bytes@),
{
    std::str::from_utf8(bytes).is_ok()
}

/// Whether the successor keeps waiting after a read from its socket: `read` is
/// the number of bytes the read gave (`None` where it failed or timed out) and
/// `buffer` the whole receive buffer after it. It waits on only while whole
/// heartbeats arrive and the buffer is UTF-8.
pub open spec fn keeps_waiting(read: Option<usize>, buffer: Seq<u8>) -> bool {
    match read {
        Some(bytes_read) => valid_utf8(buffer) && bytes_read == HEARTBEAT_LEN,
        None => false,
    }
}

/// Decides whether the successor keeps waiting for its predecessor after one
/// read; once this is false the predecessor is taken to be gone.
pub fn parent_is_alive(read: Option<usize>, buffer: &[u8]) -> (alive: bool)
    ensures
        alive == keeps_waiting(read, buffer@),
{
    match read {
        Some(bytes_read) => {
            if is_utf8(buffer) {
                bytes_read == HEARTBEAT_LEN
            } else {
                false
            }
        },
        None => false,
    }
}

/// A byte sequence of ASCII bytes only is well-formed UTF-8.
pub proof fn lemma_ascii_is_utf8(bytes: Seq<u8>)
    requires
        forall|i: int| 0 <= i < bytes.len() ==> bytes[i] < 0x80,
    ensures
        valid_utf8(bytes),
    decreases bytes.len(),
{
    if bytes.len() != 0 {
        let b = bytes[0];
        assert(b & 0x7f == b) by (bit_vector)
            requires
                b < 0x80,
        ;
        assert(valid_first_scalar(bytes));
        let rest = pop_first_scalar(bytes);
        assert(rest =~= bytes.subrange(1, bytes.len() as int));
        lemma_ascii_is_utf8(rest);
    }
}

/// A heartbeat read into a zeroed receive buffer keeps the successor waiting.
pub proof fn lemma_heartbeat_keeps_parent_waiting(rest: Seq<u8>)
    requires
        forall|i: int| 0 <= i < rest.len() ==> rest[i] == 0,
    ensures
        keeps_waiting(Some(HEARTBEAT_LEN), heartbeat_bytes() + rest),
{
    let buffer = heartbeat_bytes() + rest;
    assert forall|i: int| 0 <= i < buffer.len() implies buffer[i] < 0x80 by {
        if i >= 9 {
            assert(buffer[i] == rest[i - 9]);
        }
    }
    lemma_ascii_is_utf8(buffer);
}

} // verus!
