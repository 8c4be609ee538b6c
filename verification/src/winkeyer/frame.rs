//! Assembly of wire bytes.

use vstd::prelude::*;

verus! {

/// Puts an opcode in front of its payload.
pub(crate) fn frame(opcode: u8, payload: Vec<u8>) -> (bytes: Vec<u8>)
    ensures
        bytes@ == seq![opcode] + payload@,
{
    let mut rest = payload;
    let mut bytes: Vec<u8> = vec![opcode];
    bytes.append(&mut rest);
    bytes
}

} // verus!
