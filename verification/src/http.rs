//! Request-scanning logic for the host's small HTTP front end: the
//! parts that compute on plain bytes live here; the sockets stay with
//! the caller.

use vstd::prelude::*;

verus! {

/// True when a CRLF-CRLF blank line starts at position `i` of `buf`.
pub open spec fn blank_line_at(buf: Seq<u8>, i: int) -> bool {
    &&& 0 <= i
    &&& i + 4 <= buf.len()
    &&& buf[i] == 13u8
    &&& buf[i + 1] == 10u8
    &&& buf[i + 2] == 13u8
    &&& buf[i + 3] == 10u8
}

/// Test whether the byte array holds a blank line ("\r\n\r\n"), which
/// ends an HTTP request header.
pub fn contains_blank_line(buf: &[u8]) -> (found: bool)
    ensures
        found == exists|i: int| blank_line_at(buf@, i),
{
    if buf.len() < 4 {
        return false;
    }
    let n = buf.len();
    let mut i: usize = 0;
    while i <= n - 4
        invariant
            4 <= n == buf@.len(),
            0 <= i <= n - 3,
            forall|j: int| 0 <= j < i ==> !blank_line_at(buf@, j),
        decreases n - i,
    {
        if buf[i] == 13 && buf[i + 1] == 10 && buf[i + 2] == 13 && buf[i + 3] == 10 {
            assert(blank_line_at(buf@, i as int));
            return true;
        }
        i = i + 1;
    }
    false
}

} // verus!
