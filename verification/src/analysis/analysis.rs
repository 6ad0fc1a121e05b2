//! The role of each played note in the key and chord that the form has on its beat.

use std::collections::HashMap;
use vstd::prelude::*;
use vstd::string::StringExecFns;
use vstd::std_specs::hash::group_hash_axioms;
use crate::form::chord::{tone_in, ChordTone, ChordView};
use crate::form::form::{piece_views, total_beats, total_beats_of_start, Form, FormPiece, FormView, PieceView};
use crate::form::key::{Degree, Key, KeyView};
use crate::form::note::Note;
use crate::text::{append_signed, signed_decimal};
use crate::transcribe::transcribe::{PlayedNote, Transcription};

verus! {

/// What one beat of the performance turned out to be.
#[derive(Debug, Clone, Copy, PartialEq)]
pub enum NoteAnalysis {
    /// Nothing, or nothing that could be told.
    Silence,
    /// A note, with its degree in the key and its role in the chord of its beat.
    Note { note: Note, degree_in_key: Degree, role_in_chord: ChordTone },
    /// A note where the form asks for silence.
    NoteDuringSilence { note: Note },
}

/// A note with the index it holds, as it is logged.
pub open spec fn logged_note(note: Note) -> Seq<char> {
    "Note { index: "@ + signed_decimal(note.spec_index()) + " }"@
}

/// Appends a note with the index it holds to a text.
fn append_note(text: &mut String, note: Note)
    ensures
        final(text)@ == old(text)@ + logged_note(note),
{
    text.append("Note { index: ");
    append_signed(text, note.index());
    text.append(" }");
    assert(final(text)@ =~= old(text)@ + logged_note(note));
}

impl NoteAnalysis {
    /// What was found on a beat, as it is logged: the name of what it is, and
    /// between braces what it holds.
    pub open spec fn spec_text(self) -> Seq<char> {
        match self {
            NoteAnalysis::Silence => "Silence"@,
            NoteAnalysis::Note { note, degree_in_key, role_in_chord } => "Note { note: "@
                + logged_note(note) + ", degree_in_key: "@ + degree_in_key.spec_name()
                + ", role_in_chord: "@ + role_in_chord.spec_name() + " }"@,
            NoteAnalysis::NoteDuringSilence { note } => "NoteDuringSilence { note: "@ + logged_note(
                note,
            ) + " }"@,
        }
    }

    pub fn text(&self) -> (r: String)
        ensures
            r@ == self.spec_text(),
    {
        match self {
            NoteAnalysis::Silence => String::from_str("Silence"),
            NoteAnalysis::Note { note, degree_in_key, role_in_chord } => {
                let mut text = String::from_str("Note { note: ");
                append_note(&mut text, *note);
                text.append(", degree_in_key: ");
                text.append(degree_in_key.name());
                text.append(", role_in_chord: ");
                text.append(role_in_chord.name());
                text.append(" }");
                assert(text@ =~= self.spec_text());
                text
            },
            NoteAnalysis::NoteDuringSilence { note } => {
                let mut text = String::from_str("NoteDuringSilence { note: ");
                append_note(&mut text, *note);
                text.append(" }");
                assert(text@ =~= self.spec_text());
                text
            },
        }
    }

    /// The note that was played on the beat, if one was.
    pub fn note(&self) -> (r: Option<Note>)
        ensures
            r == match *self {
                NoteAnalysis::Silence => None,
                NoteAnalysis::Note { note, degree_in_key: _, role_in_chord: _ } => Some(note),
                NoteAnalysis::NoteDuringSilence { note } => Some(note),
            },
    {
        match self {
            NoteAnalysis::Silence => None,
            NoteAnalysis::Note { note, degree_in_key: _, role_in_chord: _ } => Some(*note),
            NoteAnalysis::NoteDuringSilence { note } => Some(*note),
        }
    }
}

/// A note held against a key and a chord.
pub open spec fn in_harmony(note: Note, key: KeyView, chord: ChordView) -> NoteAnalysis {
    NoteAnalysis::Note {
        note,
        degree_in_key: key.degree_of(note.pitch()),
        role_in_chord: tone_in(chord.pitches, note.pitch()),
    }
}

/// The chord that sounds on the beat `offset` of a piece, where one does: the
/// chord of a bar, and the first chord of a half bar for its first two beats.
pub open spec fn chord_on(piece: PieceView, offset: int) -> Option<ChordView> {
    match piece {
        PieceView::ChordBar(chord) => Some(chord),
        PieceView::HalfBar(first, second) => if offset < 2 {
            Some(first)
        } else {
            Some(second)
        },
        _ => None,
    }
}

/// What a played note is on the beat `offset` of a piece, in a key. Only a note
/// that was surely heard counts as one; during a count-off it is a note where
/// silence was asked for.
pub open spec fn analyze_beat(
    played: PlayedNote,
    piece: PieceView,
    key: KeyView,
    offset: int,
) -> NoteAnalysis {
    match played {
        PlayedNote::Surely(note) => match chord_on(piece, offset) {
            Some(chord) => in_harmony(note, key, chord),
            None => if piece is CountOff {
                NoteAnalysis::NoteDuringSilence { note }
            } else {
                NoteAnalysis::Silence
            },
        },
        _ => NoteAnalysis::Silence,
    }
}

/// The beat on which the piece at `index` starts.
pub open spec fn starts_at(pieces: Seq<PieceView>, index: int) -> nat {
    total_beats(pieces.take(index))
}

/// The index of the piece during which `beat` falls, for a beat of the form.
pub open spec fn piece_at(pieces: Seq<PieceView>, beat: int) -> int
    decreases pieces.len(),
{
    if pieces.len() == 0 {
        0
    } else if beat >= total_beats(pieces.drop_last()) {
        pieces.len() - 1
    } else {
        piece_at(pieces.drop_last(), beat)
    }
}

/// The key in force while the piece at `index` is played: that of the last key
/// piece up to there, or the key the form starts in.
pub open spec fn key_at(initial: KeyView, pieces: Seq<PieceView>, index: int) -> KeyView
    decreases index + 1,
{
    if index < 0 || index >= pieces.len() {
        initial
    } else {
        match pieces[index] {
            PieceView::Key(key) => key,
            _ => key_at(initial, pieces, index - 1),
        }
    }
}

/// The key that a form declares for its start.
pub open spec fn declared_key(form: FormView) -> KeyView {
    KeyView { root: form.key.spec_root().pitch(), quality: form.key.spec_quality() }
}

/// The beats that get analyzed: those of the form for which a note was
/// transcribed.
pub open spec fn analyzed_beats(form: FormView, notes: Seq<PlayedNote>) -> nat {
    if notes.len() <= total_beats(form.pieces) {
        notes.len()
    } else {
        total_beats(form.pieces)
    }
}

/// What the note on `beat` is, in the key and under the piece that the form has
/// there.
pub open spec fn analysis_of_beat(form: FormView, notes: Seq<PlayedNote>, beat: int) -> NoteAnalysis {
    let index = piece_at(form.pieces, beat);
    analyze_beat(
        notes[beat],
        form.pieces[index],
        key_at(declared_key(form), form.pieces, index),
        beat - starts_at(form.pieces, index),
    )
}

/// The beats of the piece at `index` that get analyzed, in order.
pub open spec fn analysis_of_piece(form: FormView, notes: Seq<PlayedNote>, index: int) -> Seq<
    NoteAnalysis,
> {
    let beats = analyzed_beats(form, notes);
    let from = starts_at(form.pieces, index);
    let to = starts_at(form.pieces, index + 1);
    let count = if beats <= from {
        0
    } else if beats <= to {
        beats - from
    } else {
        to - from
    };
    Seq::new(count as nat, |j: int| analysis_of_beat(form, notes, from + j))
}

/// A beat that lies between the start of a piece and the start of the next falls
/// in that piece.
pub proof fn beat_falls_in_piece(pieces: Seq<PieceView>, index: int, beat: int)
    requires
        0 <= index < pieces.len(),
        starts_at(pieces, index) <= beat < starts_at(pieces, index + 1),
    ensures
        piece_at(pieces, beat) == index,
    decreases pieces.len(),
{
    if index == pieces.len() - 1 {
        assert(pieces.take(index) =~= pieces.drop_last());
    } else {
        let shorter = pieces.drop_last();
        assert(shorter.take(index) =~= pieces.take(index));
        assert(shorter.take(index + 1) =~= pieces.take(index + 1));
        total_beats_of_start(shorter, index + 1);
        beat_falls_in_piece(shorter, index, beat);
    }
}

/// A piece starts where the one before it ends.
pub proof fn next_start(pieces: Seq<PieceView>, index: int)
    requires
        0 <= index < pieces.len(),
    ensures
        starts_at(pieces, index + 1) == starts_at(pieces, index) + pieces[index].beats(),
        starts_at(pieces, index + 1) <= total_beats(pieces),
{
    assert(pieces.take(index + 1).drop_last() =~= pieces.take(index));
    total_beats_of_start(pieces, index + 1);
}

/// The analysis of a performance: for each beat the piece of the form that it
/// falls in and what was played on it, and the same beats piece by piece.
#[derive(Debug, Clone)]
pub struct Analysis {
    /// What was played on each beat, by the number of the beat.
    pub beat_analysis: HashMap<u32, (FormPiece, NoteAnalysis)>,
    /// The pieces of the form in order, each with the beats that fell in it.
    pub form_analysis: Vec<(FormPiece, Vec<NoteAnalysis>)>,
}

impl Analysis {
    /// The beats are numbered from 0 without a gap: the analysis holds a beat
    /// exactly when its number is below the number of beats held.
    pub open spec fn covers_its_beats(&self) -> bool {
        &&& self.beat_analysis@.len() <= u32::MAX
        &&& forall|beat: u32|
            self.beat_analysis@.contains_key(beat) <==> (beat as int) < self.beat_analysis@.len()
    }

    /// The analysis says of each beat what `form` and `notes` make of it.
    pub open spec fn is_analysis_of(&self, form: FormView, notes: Seq<PlayedNote>) -> bool {
        &&& self.beat_analysis@.len() == analyzed_beats(form, notes)
        &&& self.covers_its_beats()
        &&& forall|beat: u32|
            (beat as int) < analyzed_beats(form, notes) ==> {
                &&& (#[trigger] self.beat_analysis@[beat]).0@ == form.pieces[piece_at(
                    form.pieces,
                    beat as int,
                )]
                &&& self.beat_analysis@[beat].1 == analysis_of_beat(form, notes, beat as int)
            }
        &&& self.form_analysis@.len() == form.pieces.len()
        &&& forall|index: int|
            0 <= index < form.pieces.len() ==> {
                &&& (#[trigger] self.form_analysis@[index]).0@ == form.pieces[index]
                &&& self.form_analysis@[index].1@ == analysis_of_piece(form, notes, index)
            }
    }

    /// Analyzes the roles of the transcribed notes in the key and chord that the
    /// form has on each beat. Notes beyond the end of the form are left out, and
    /// so are beats of the form beyond the last note.
    pub fn analyze(transcription: Transcription, form: &Form) -> (r: Analysis)
        ensures
            r.is_analysis_of(form@, transcription.notes@),
    {
        broadcast use group_hash_axioms;

        let notes = &transcription.notes;
        let music = form.music();
        let ghost pieces = form@.pieces;
        let ghost shape = form@;
        let mut beat_analysis: HashMap<u32, (FormPiece, NoteAnalysis)> = HashMap::new();
        let mut form_analysis: Vec<(FormPiece, Vec<NoteAnalysis>)> = Vec::new();
        let mut key = form.key().unwrite();
        let mut beat_number: u32 = 0;
        let mut i: usize = 0;
        proof {
            assert(pieces.take(0) =~= Seq::<PieceView>::empty());
        }
        while i < music.len()
            invariant
                0 <= i <= music.len(),
                shape == form@,
                pieces == shape.pieces,
                pieces == piece_views(music@),
                total_beats(pieces) <= u32::MAX,
                notes == &transcription.notes,
                key@ == key_at(declared_key(shape), pieces, i - 1),
                beat_number == if notes@.len() <= starts_at(pieces, i as int) {
                    notes@.len()
                } else {
                    starts_at(pieces, i as int)
                },
                beat_analysis@.len() == beat_number,
                forall|beat: u32| beat_analysis@.contains_key(beat) <==> beat < beat_number,
                forall|beat: u32|
                    beat < beat_number ==> {
                        &&& (#[trigger] beat_analysis@[beat]).0@ == pieces[piece_at(
                            pieces,
                            beat as int,
                        )]
                        &&& beat_analysis@[beat].1 == analysis_of_beat(
                            shape,
                            notes@,
                            beat as int,
                        )
                    },
                form_analysis@.len() == i,
                forall|index: int|
                    0 <= index < i ==> {
                        &&& (#[trigger] form_analysis@[index]).0@ == pieces[index]
                        &&& form_analysis@[index].1@ == analysis_of_piece(shape, notes@, index)
                    },
            decreases music.len() - i,
        {
            let piece = &music[i];
            if let FormPiece::Key(new_key) = piece {
                key = *new_key;
            }
            let length = piece.length_in_beats();
            let ghost start = starts_at(pieces, i as int);
            proof {
                next_start(pieces, i as int);
                assert(pieces[i as int] == piece@);
                assert(key@ == key_at(declared_key(shape), pieces, i as int));
            }
            let mut analyses: Vec<NoteAnalysis> = Vec::new();
            let mut offset: u32 = 0;
            while offset < length && (beat_number as usize) < notes.len()
                invariant
                    0 <= i < music.len(),
                    shape == form@,
                    pieces == shape.pieces,
                    pieces == piece_views(music@),
                    piece == &music@[i as int],
                    pieces[i as int] == piece@,
                    length == piece@.beats(),
                    total_beats(pieces) <= u32::MAX,
                    start == starts_at(pieces, i as int),
                    starts_at(pieces, i + 1) == start + length,
                    starts_at(pieces, i + 1) <= total_beats(pieces),
                    notes == &transcription.notes,
                    key@ == key_at(declared_key(shape), pieces, i as int),
                    0 <= offset <= length,
                    beat_number == if notes@.len() <= start + offset {
                        notes@.len() as int
                    } else {
                        start + offset
                    },
                    analyses@.len() == offset,
                    offset > 0 ==> beat_number == start + offset,
                    forall|j: int|
                        0 <= j < offset ==> #[trigger] analyses@[j] == analysis_of_beat(
                            shape,
                            notes@,
                            start + j,
                        ),
                    beat_analysis@.len() == beat_number,
                    forall|beat: u32| beat_analysis@.contains_key(beat) <==> beat < beat_number,
                    forall|beat: u32|
                        beat < beat_number ==> {
                            &&& (#[trigger] beat_analysis@[beat]).0@ == pieces[piece_at(
                                pieces,
                                beat as int,
                            )]
                            &&& beat_analysis@[beat].1 == analysis_of_beat(
                                shape,
                                notes@,
                                beat as int,
                            )
                        },
                decreases length - offset,
            {
                proof {
                    beat_falls_in_piece(pieces, i as int, beat_number as int);
                }
                let analysis = analyze_played(notes[beat_number as usize], piece, &key, offset);
                analyses.push(analysis);
                let held = piece.clone();
                beat_analysis.insert(beat_number, (held, analysis));
                beat_number = beat_number + 1;
                offset = offset + 1;
            }
            proof {
                let found = analysis_of_piece(shape, notes@, i as int);
                assert(analyses@ =~= found);
            }
            form_analysis.push((piece.clone(), analyses));
            i += 1;
        }
        proof {
            assert(pieces.take(i as int) =~= pieces);
        }
        Analysis { beat_analysis, form_analysis }
    }
}

/// What a played note is on the beat `offset` of a piece, in a key.
fn analyze_played(played: PlayedNote, piece: &FormPiece, key: &Key, offset: u32) -> (r:
    NoteAnalysis)
    ensures
        r == analyze_beat(played, piece@, key@, offset as int),
{
    match played {
        PlayedNote::Surely(note) => match piece {
            FormPiece::CountOff => NoteAnalysis::NoteDuringSilence { note },
            FormPiece::ChordBar(chord) => NoteAnalysis::Note {
                note,
                degree_in_key: key.role(note),
                role_in_chord: chord.role(note),
            },
            FormPiece::HalfBar(first, second) => {
                let chord = if offset < 2 {
                    first
                } else {
                    second
                };
                NoteAnalysis::Note {
                    note,
                    degree_in_key: key.role(note),
                    role_in_chord: chord.role(note),
                }
            },
            _ => NoteAnalysis::Silence,
        },
        _ => NoteAnalysis::Silence,
    }
}

/// Where there is a note for every beat of the form and none beyond, every beat
/// of the form is analyzed once: the analysis holds the beats from 0 up to the
/// length of the form, and no others.
pub proof fn every_beat_once(analysis: Analysis, form: FormView, notes: Seq<PlayedNote>)
    requires
        analysis.is_analysis_of(form, notes),
        notes.len() == total_beats(form.pieces),
    ensures
        analysis.beat_analysis@.len() == total_beats(form.pieces),
        forall|beat: u32|
            analysis.beat_analysis@.contains_key(beat) <==> (beat as int) < total_beats(form.pieces),
{
}

/// Every piece starts on the first beat of a bar, so that the place of a beat
/// in its piece and its place in the bar are the same.
pub proof fn pieces_start_on_the_bar(pieces: Seq<PieceView>, index: int)
    requires
        0 <= index <= pieces.len(),
    ensures
        starts_at(pieces, index) % 4 == 0,
    decreases index,
{
    if index == 0 {
        assert(pieces.take(0) =~= Seq::<PieceView>::empty());
    } else {
        pieces_start_on_the_bar(pieces, index - 1);
        next_start(pieces, index - 1);
    }
}

/// The chord that a beat is analyzed against is the chord of its half of the
/// bar: on a beat of a half bar, the first chord counts exactly when the beat is
/// the first or second of its bar.
pub proof fn half_bars_follow_the_bar(pieces: Seq<PieceView>, index: int, beat: int)
    requires
        0 <= index < pieces.len(),
        starts_at(pieces, index) <= beat < starts_at(pieces, index + 1),
        pieces[index] is HalfBar,
    ensures
        beat - starts_at(pieces, index) < 2 <==> beat % 4 < 2,
{
    pieces_start_on_the_bar(pieces, index);
    next_start(pieces, index);
}

} // verus!
