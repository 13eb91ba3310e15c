//! Verified core of an interactive collector of commit-message fields.
//!
//! The library holds the logic of the prompt pipeline: the length budget
//! for the short description, the validator with its one-slot force
//! override, the bounded input history, the stripping of comment lines
//! from an edited longer description, the extraction of a ticket
//! identifier from a branch name, and the stage-by-stage state machine
//! that ties the answers together into one record. The terminal, the
//! editor and the version-control lookup stay outside: a thin front end
//! drives the state machine and hands every answer in as a plain value.

use vstd::prelude::*;

pub mod budget;
pub mod history;
pub mod longdesc;
pub mod pipeline;
pub mod ticket;
pub mod validator;

verus! {

/// Number of bytes in the UTF-8 encoding of a text, as `str::len` reports it.
pub open spec fn byte_len(s: Seq<char>) -> usize {
    vstd::utf8::encode_utf8(s).len() as usize
}

} // verus!
