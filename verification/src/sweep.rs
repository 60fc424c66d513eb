//! Exhaustive enumeration over every byte value: one probe session per
//! byte, one classification per session, collected into an ordered table.
//! Unlike the bisection probes, the sweep assumes nothing about
//! monotonicity and therefore tests all 256 values.

use vstd::prelude::*;

use crate::probe::AllowedResult;

verus! {

/// Accumulating result table of the tag-character sweep: entry `i` records
/// byte value `i`, its character, and the server's classification.
#[derive(Debug)]
pub struct Sweep {
    table: Vec<(u8, char, AllowedResult)>,
}

impl Sweep {
    /// The classifications recorded so far, in byte order.
    pub closed spec fn entries(&self) -> Seq<(u8, char, AllowedResult)> {
        self.table@
    }

    /// At most 256 entries ever exist, and entry `i` is keyed by byte
    /// value `i` with its character.
    pub open spec fn well_formed(&self) -> bool {
        &&& self.entries().len() <= 256
        &&& forall|i: int|
            0 <= i < self.entries().len() ==> {
                &&& (#[trigger] self.entries()[i]).0 == i as u8
                &&& self.entries()[i].1 == (i as u8) as char
            }
    }

    /// Start a sweep with nothing recorded.
    pub fn new() -> (s: Self)
        ensures
            s.well_formed(),
            s.entries().len() == 0,
    {
        Sweep { table: Vec::new() }
    }

    /// The next byte value to probe, `None` exactly once all 256 byte
    /// values carry a classification.
    pub fn next_byte(&self) -> (r: Option<u8>)
        requires
            self.well_formed(),
        ensures
            r is None <==> self.entries().len() == 256,
            r matches Some(b) ==> b == self.entries().len(),
    {
        if self.table.len() == 256 {
            None
        } else {
            Some(self.table.len() as u8)
        }
    }

    /// Record the classification for the byte value `next_byte` proposed.
    pub fn record(&mut self, verdict: AllowedResult)
        requires
            old(self).well_formed(),
            old(self).entries().len() < 256,
        ensures
            final(self).well_formed(),
            final(self).entries() == old(self).entries().push(
                (
                    old(self).entries().len() as u8,
                    old(self).entries().len() as u8 as char,
                    verdict,
                ),
            ),
    {
        let b: u8 = self.table.len() as u8;
        let c: char = b as char;
        self.table.push((b, c, verdict));
    }

    /// Whether every byte value has been classified.
    pub fn complete(&self) -> (r: bool)
        ensures
            r <==> self.entries().len() == 256,
    {
        self.table.len() == 256
    }

    /// Hand the finished table out: exactly 256 entries, one per byte
    /// value in increasing order, each with its single classification.
    pub fn into_table(self) -> (r: Vec<(u8, char, AllowedResult)>)
        requires
            self.well_formed(),
            self.entries().len() == 256,
        ensures
            r@ == self.entries(),
            r@.len() == 256,
            forall|i: int|
                0 <= i < 256 ==> (#[trigger] r@[i]).0 == i as u8 && r@[i].1 == (i as u8) as char,
    {
        self.table
    }
}

/// Law: a completed sweep holds exactly 256 entries, one per byte value
/// `0..=255` in increasing order, each carrying exactly one classification.
pub proof fn lemma_sweep_complete(s: Sweep)
    requires
        s.well_formed(),
        s.entries().len() == 256,
    ensures
        forall|i: int| 0 <= i < 256 ==> (#[trigger] s.entries()[i]).0 == i as u8,
        forall|i: int| 0 <= i < 256 ==> (#[trigger] s.entries()[i]).1 == (i as u8) as char,
{
}

} // verus!
