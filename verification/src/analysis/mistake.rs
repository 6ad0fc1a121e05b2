//! What an exercise can find wrong with a beat.

use vstd::prelude::*;
use vstd::string::StringExecFns;
use crate::analysis::analysis::NoteAnalysis;
use crate::form::chord::ChordTone;
use crate::form::note::{flat_spelling, Note};
use crate::text::{append_decimal, decimal};

verus! {

#[derive(Debug, Clone, Copy, PartialEq)]
pub enum MistakeKind {
    /// One note was asked for and another played.
    WrongNote { played: Note, expected: Note },
    /// Something was played where the form is silent.
    ExpectedSilence { found: NoteAnalysis },
    /// No note was found where the form has a chord.
    ExpectedNote { found: NoteAnalysis },
    /// A note outside the tones that the exercise allows, with one note that
    /// would have been right.
    ExpectedChordTone { played_chord_tone: ChordTone, played_note: Note, expected_example: Note },
}

/// A note in its flat spelling.
pub open spec fn flat_text(note: Note) -> Seq<char> {
    flat_spelling(note.pitch()).spec_text()
}

impl MistakeKind {
    /// The mistake in words, with every note in its flat spelling.
    pub open spec fn spec_text(self) -> Seq<char> {
        match self {
            MistakeKind::WrongNote { played, expected } => "Wrong note, played "@ + flat_text(played)
                + " expected "@ + flat_text(expected) + "."@,
            MistakeKind::ExpectedSilence { found } => "Expected silence, found "@
                + found.spec_text(),
            MistakeKind::ExpectedNote { found } => "Expected some note, found "@
                + found.spec_text(),
            MistakeKind::ExpectedChordTone { played_chord_tone, played_note, expected_example } =>
                "Expected any chord tone, found "@ + played_chord_tone.spec_name() + " (found: "@
                    + flat_text(played_note) + ", expected e.g.: "@ + flat_text(expected_example)
                    + ")"@,
        }
    }

    pub fn text(&self) -> (r: String)
        ensures
            r@ == self.spec_text(),
    {
        match self {
            MistakeKind::WrongNote { played, expected } => {
                let mut text = String::from_str("Wrong note, played ");
                let played = played.flat().text();
                text.append(played.as_str());
                text.append(" expected ");
                let expected = expected.flat().text();
                text.append(expected.as_str());
                text.append(".");
                assert(text@ =~= self.spec_text());
                text
            },
            MistakeKind::ExpectedSilence { found } => {
                let mut text = String::from_str("Expected silence, found ");
                let found = found.text();
                text.append(found.as_str());
                text
            },
            MistakeKind::ExpectedNote { found } => {
                let mut text = String::from_str("Expected some note, found ");
                let found = found.text();
                text.append(found.as_str());
                text
            },
            MistakeKind::ExpectedChordTone { played_chord_tone, played_note, expected_example } => {
                let mut text = String::from_str("Expected any chord tone, found ");
                text.append(played_chord_tone.name());
                text.append(" (found: ");
                let played = played_note.flat().text();
                text.append(played.as_str());
                text.append(", expected e.g.: ");
                let expected = expected_example.flat().text();
                text.append(expected.as_str());
                text.append(")");
                assert(text@ =~= self.spec_text());
                text
            },
        }
    }
}

/// A mistake and the beat it was made on.
#[derive(Debug, Clone, Copy, PartialEq)]
pub struct Mistake {
    pub beat: u32,
    pub mistake: MistakeKind,
}

impl Mistake {
    /// Between brackets the bar and the beat in it, both counted from 1, and
    /// behind a stroke the beat counted from 0; then the mistake in words.
    pub open spec fn spec_text(self) -> Seq<char> {
        "["@ + decimal((self.beat / 4 + 1) as nat) + "."@ + decimal((self.beat % 4 + 1) as nat)
            + " | "@ + decimal(self.beat as nat) + "] "@ + self.mistake.spec_text()
    }

    pub fn text(&self) -> (r: String)
        ensures
            r@ == self.spec_text(),
    {
        let mut text = String::from_str("[");
        append_decimal(&mut text, self.beat as u64 / 4 + 1);
        text.append(".");
        append_decimal(&mut text, self.beat as u64 % 4 + 1);
        text.append(" | ");
        append_decimal(&mut text, self.beat as u64);
        text.append("] ");
        let mistake = self.mistake.text();
        text.append(mistake.as_str());
        assert(text@ =~= self.spec_text());
        text
    }
}

} // verus!
