//! Outcome of compiling a shader or linking a program.

use vstd::prelude::*;

verus! {

/// The ASCII space that fills an empty log buffer.
pub const SPACE: u8 = 32;

/// The error that a failed compile or link reports: the driver's info log.
#[derive(Debug, PartialEq, Eq)]
pub struct ShaderError {
    pub log: String,
}

/// The outcome of a compile or link whose status query returned `status`:
/// the object's handle when the status is nonzero, the info log otherwise.
pub fn check_status(id: u32, status: i32, log: String) -> (r: Result<u32, ShaderError>)
    ensures
        status != 0 ==> r == Ok::<u32, ShaderError>(id),
        status == 0 ==> (r matches Err(e) && e.log@ == log@),
{
    if status == 0 {
        Err(ShaderError { log })
    } else {
        Ok(id)
    }
}

/// A buffer of `len` spaces for the driver to write an info log into.
pub fn blank_log_buffer(len: usize) -> (buf: Vec<u8>)
    ensures
        buf@ == Seq::new(len as nat, |_i: int| SPACE),
{
    let mut buf: Vec<u8> = Vec::with_capacity(len);
    let mut i: usize = 0;
    while i < len
        invariant
            i <= len,
            buf@ == Seq::new(i as nat, |_i: int| SPACE),
        decreases len - i,
    {
        buf.push(SPACE);
        i = i + 1;
        assert(buf@ =~= Seq::new(i as nat, |_i: int| SPACE));
    }
    buf
}

} // verus!
