//! Small sequences of MIDI numbers.

use vstd::prelude::*;

verus! {

/// Whether two sequences are the same.
pub fn same_notes(a: &Vec<u8>, b: &Vec<u8>) -> (r: bool)
    ensures
        r == (a@ == b@),
{
    if a.len() != b.len() {
        return false;
    }
    for i in 0..a.len()
        invariant
            a@.len() == b@.len(),
            forall|j: int| 0 <= j < i ==> a@[j] == b@[j],
    {
        if a[i] != b[i] {
            return false;
        }
    }
    assert(a@ =~= b@);
    true
}

/// A copy of some notes.
pub fn copy_notes(notes: &Vec<u8>) -> (r: Vec<u8>)
    ensures
        r@ == notes@,
{
    let mut out: Vec<u8> = Vec::new();
    for i in 0..notes.len()
        invariant
            out@ == notes@.take(i as int),
    {
        out.push(notes[i]);
    }
    assert(notes@.take(notes@.len() as int) =~= notes@);
    out
}

} // verus!
