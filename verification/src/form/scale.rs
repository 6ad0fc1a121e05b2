//! Scales: the notes of a key in order.

use vstd::prelude::*;
use crate::form::note::{
    notes_text, pitches, spaced_text, spelled, write_notes, Note, Spelling, WrittenNote,
};

verus! {

/// The notes of a scale, from the first degree upwards.
#[derive(Debug)]
pub struct Scale {
    pub notes: Vec<Note>,
}

impl Clone for Scale {
    fn clone(&self) -> (r: Scale)
        ensures
            r.notes@ == self.notes@,
    {
        let mut notes: Vec<Note> = Vec::new();
        let mut i: usize = 0;
        while i < self.notes.len()
            invariant
                0 <= i <= self.notes.len(),
                notes@ == self.notes@.take(i as int),
            decreases self.notes.len() - i,
        {
            notes.push(self.notes[i]);
            proof {
                assert(self.notes@.take(i + 1) =~= self.notes@.take(i as int).push(
                    self.notes@[i as int],
                ));
            }
            i += 1;
        }
        proof {
            assert(self.notes@.take(i as int) =~= self.notes@);
        }
        Scale { notes }
    }
}

impl Scale {
    pub fn spell(&self, spelling: Spelling) -> (r: WrittenScale)
        ensures
            r.notes@ == spelled(pitches(self.notes@), spelling),
    {
        match spelling {
            Spelling::Sharp => self.sharp(),
            Spelling::Flat => self.flat(),
        }
    }

    pub fn sharp(&self) -> (r: WrittenScale)
        ensures
            r.notes@ == spelled(pitches(self.notes@), Spelling::Sharp),
    {
        WrittenScale { notes: write_notes(&self.notes, Spelling::Sharp) }
    }

    pub fn flat(&self) -> (r: WrittenScale)
        ensures
            r.notes@ == spelled(pitches(self.notes@), Spelling::Flat),
    {
        WrittenScale { notes: write_notes(&self.notes, Spelling::Flat) }
    }
}

/// A scale as it is written: its notes in one spelling.
pub struct WrittenScale {
    pub notes: Vec<WrittenNote>,
}

impl WrittenScale {
    /// The notes of the scale, each followed by a blank.
    pub fn text(&self) -> (r: String)
        ensures
            r@ == spaced_text(self.notes@),
    {
        notes_text(&self.notes)
    }
}

} // verus!
