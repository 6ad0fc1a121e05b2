//! The form: the harmonic script that a performance is held against.

use vstd::prelude::*;
use vstd::string::StringExecFns;
use crate::form::chord::{Chord, ChordView};
use crate::form::key::{Key, KeyView, WrittenKey};
use crate::form::note::{spaced_text, spelled, Spelling};

verus! {

/// What a piece of a form is, apart from how its chords are stored.
pub enum PieceView {
    Key(KeyView),
    CountOff,
    ChordBar(ChordView),
    HalfBar(ChordView, ChordView),
    LineBreak,
}

impl PieceView {
    /// The beats that the piece lasts.
    pub open spec fn beats(self) -> nat {
        match self {
            PieceView::Key(_) => 0,
            PieceView::CountOff => 8,
            PieceView::ChordBar(_) => 4,
            PieceView::HalfBar(_, _) => 4,
            PieceView::LineBreak => 0,
        }
    }
}

/// The beats that a row of pieces lasts: the sum of the beats of each.
pub open spec fn total_beats(pieces: Seq<PieceView>) -> nat
    decreases pieces.len(),
{
    if pieces.len() == 0 {
        0
    } else {
        total_beats(pieces.drop_last()) + pieces.last().beats()
    }
}

/// The beats of two rows of pieces laid end to end are the beats of both.
pub proof fn total_beats_of_both(first: Seq<PieceView>, second: Seq<PieceView>)
    ensures
        total_beats(first + second) == total_beats(first) + total_beats(second),
    decreases second.len(),
{
    if second.len() == 0 {
        assert(first + second =~= first);
    } else {
        assert((first + second).drop_last() =~= first + second.drop_last());
        assert((first + second).last() == second.last());
        total_beats_of_both(first, second.drop_last());
    }
}

/// The beats of a row are those of its first pieces and those of the rest.
pub proof fn total_beats_of_start(pieces: Seq<PieceView>, count: int)
    requires
        0 <= count <= pieces.len(),
    ensures
        total_beats(pieces.take(count)) + total_beats(pieces.skip(count)) == total_beats(pieces),
{
    assert(pieces.take(count) + pieces.skip(count) =~= pieces);
    total_beats_of_both(pieces.take(count), pieces.skip(count));
}

/// One piece of a form in four-four time.
#[derive(Debug, PartialEq)]
pub enum FormPiece {
    /// The key from here on. It decides the degree of each note.
    Key(Key),
    /// Eight beats in which the tune is counted off and nothing is played.
    CountOff,
    /// A bar in which one chord sounds throughout.
    ChordBar(Chord),
    /// A bar of two chords, each held for half the bar.
    HalfBar(Chord, Chord),
    /// Where the chart breaks the line. It takes no time.
    LineBreak,
}

impl View for FormPiece {
    type V = PieceView;

    open spec fn view(&self) -> PieceView {
        match self {
            FormPiece::Key(key) => PieceView::Key(key@),
            FormPiece::CountOff => PieceView::CountOff,
            FormPiece::ChordBar(chord) => PieceView::ChordBar(chord@),
            FormPiece::HalfBar(first, second) => PieceView::HalfBar(first@, second@),
            FormPiece::LineBreak => PieceView::LineBreak,
        }
    }
}

impl Clone for FormPiece {
    fn clone(&self) -> (r: FormPiece)
        ensures
            r@ == self@,
    {
        match self {
            FormPiece::Key(key) => FormPiece::Key(*key),
            FormPiece::CountOff => FormPiece::CountOff,
            FormPiece::ChordBar(chord) => FormPiece::ChordBar(chord.clone()),
            FormPiece::HalfBar(first, second) => FormPiece::HalfBar(first.clone(), second.clone()),
            FormPiece::LineBreak => FormPiece::LineBreak,
        }
    }
}

/// A chord in both spellings, with a stroke between them.
pub open spec fn both_spellings(chord: ChordView) -> Seq<char> {
    spaced_text(spelled(chord.pitches, Spelling::Sharp)) + seq!['/'] + spaced_text(
        spelled(chord.pitches, Spelling::Flat),
    )
}

/// Appends a chord in both spellings to a text.
fn append_chord(text: &mut String, chord: &Chord)
    ensures
        final(text)@ == old(text)@ + both_spellings(chord@),
{
    proof {
        reveal_strlit("/");
        assert("/"@ =~= seq!['/']);
    }
    let sharp = chord.sharp().text();
    let flat = chord.flat().text();
    text.append(sharp.as_str());
    text.append("/");
    text.append(flat.as_str());
}

impl FormPiece {
    /// The piece as a chart shows it: a whole note before the chord of a bar, a
    /// half note before each chord of a half bar, and every chord in both
    /// spellings.
    pub open spec fn spec_text(self) -> Seq<char> {
        match self {
            FormPiece::Key(key) => key.spec_text(),
            FormPiece::CountOff => "Count in"@,
            FormPiece::ChordBar(chord) => seq!['\u{1D15D}', ' '] + both_spellings(chord@),
            FormPiece::HalfBar(first, second) => seq!['\u{1D15E}', ' '] + both_spellings(first@) + seq![
                ' ',
                '\u{1D15E}',
                ' ',
            ] + both_spellings(second@),
            FormPiece::LineBreak => seq!['\n'],
        }
    }

    pub fn text(&self) -> (r: String)
        ensures
            r@ == self.spec_text(),
    {
        proof {
            reveal_strlit("\u{1D15D} ");
            reveal_strlit("\u{1D15E} ");
            reveal_strlit(" \u{1D15E} ");
            reveal_strlit("\n");
            assert("\u{1D15D} "@ =~= seq!['\u{1D15D}', ' ']);
            assert("\u{1D15E} "@ =~= seq!['\u{1D15E}', ' ']);
            assert(" \u{1D15E} "@ =~= seq![' ', '\u{1D15E}', ' ']);
            assert("\n"@ =~= seq!['\n']);
        }
        match self {
            FormPiece::Key(key) => key.text(),
            FormPiece::CountOff => String::from_str("Count in"),
            FormPiece::ChordBar(chord) => {
                let mut text = String::from_str("\u{1D15D} ");
                append_chord(&mut text, chord);
                text
            },
            FormPiece::HalfBar(first, second) => {
                let mut text = String::from_str("\u{1D15E} ");
                append_chord(&mut text, first);
                text.append(" \u{1D15E} ");
                append_chord(&mut text, second);
                text
            },
            FormPiece::LineBreak => String::from_str("\n"),
        }
    }

    pub fn length_in_beats(&self) -> (r: u32)
        ensures
            r == self@.beats(),
    {
        match self {
            FormPiece::Key(_) => 0,
            FormPiece::CountOff => 8,
            FormPiece::ChordBar(_) => 4,
            FormPiece::HalfBar(_, _) => 4,
            FormPiece::LineBreak => 0,
        }
    }
}

/// The views of a row of pieces.
pub open spec fn piece_views(music: Seq<FormPiece>) -> Seq<PieceView> {
    music.map_values(|piece: FormPiece| piece@)
}

/// A bar of one chord.
pub fn bar(chord: Chord) -> (r: FormPiece)
    ensures
        r == FormPiece::ChordBar(chord),
{
    FormPiece::ChordBar(chord)
}

/// A bar of two chords.
pub fn half_bar(chord1: Chord, chord2: Chord) -> (r: FormPiece)
    ensures
        r == FormPiece::HalfBar(chord1, chord2),
{
    FormPiece::HalfBar(chord1, chord2)
}

/// What a form is: its tempo, the key it is written in, and its pieces in order.
pub struct FormView {
    pub tempo: u32,
    pub key: WrittenKey,
    pub pieces: Seq<PieceView>,
}

/// A tune to play over: a tempo, a key and the pieces in the order in which they
/// are played. It lasts no more beats than a beat counter can hold.
#[derive(Debug, PartialEq)]
pub struct Form {
    tempo: u32,
    key: WrittenKey,
    music: Vec<FormPiece>,
}

impl View for Form {
    type V = FormView;

    closed spec fn view(&self) -> FormView {
        FormView { tempo: self.tempo, key: self.key, pieces: piece_views(self.music@) }
    }
}

impl Clone for Form {
    fn clone(&self) -> (r: Form)
        ensures
            r@ == self@,
    {
        proof {
            use_type_invariant(self);
        }
        let mut music: Vec<FormPiece> = Vec::new();
        let mut i: usize = 0;
        while i < self.music.len()
            invariant
                0 <= i <= self.music.len(),
                piece_views(music@) == piece_views(self.music@.take(i as int)),
            decreases self.music.len() - i,
        {
            let ghost before = music@;
            let piece = self.music[i].clone();
            music.push(piece);
            proof {
                assert(self.music@.take(i + 1) =~= self.music@.take(i as int).push(
                    self.music@[i as int],
                ));
                assert(piece_views(music@) =~= piece_views(before).push(piece@));
                assert(piece_views(self.music@.take(i + 1)) =~= piece_views(
                    self.music@.take(i as int),
                ).push(self.music@[i as int]@));
            }
            i += 1;
        }
        proof {
            assert(self.music@.take(i as int) =~= self.music@);
        }
        Form { tempo: self.tempo, key: self.key, music }
    }
}

/// The pieces that a form is made of from the pieces it is given: a count-off
/// goes in front unless the first of them is one.
pub open spec fn counted_off(pieces: Seq<PieceView>) -> Seq<PieceView> {
    if pieces.len() > 0 && pieces[0] is CountOff {
        pieces
    } else {
        seq![PieceView::CountOff] + pieces
    }
}

impl Form {
    #[verifier::type_invariant]
    closed spec fn fits_a_beat_counter(self) -> bool {
        total_beats(piece_views(self.music@)) <= u32::MAX
    }

    /// The pieces as they are stored.
    pub closed spec fn spec_music(self) -> Seq<FormPiece> {
        self.music@
    }

    /// A form of the given pieces, with a count-off put before them where they do
    /// not start with one.
    pub fn new(tempo: u32, key: WrittenKey, music: Vec<FormPiece>) -> (r: Form)
        requires
            total_beats(counted_off(piece_views(music@))) <= u32::MAX,
        ensures
            r@.tempo == tempo,
            r@.key == key,
            r@.pieces == counted_off(piece_views(music@)),
    {
        let mut music = music;
        let starts_counted = music.len() > 0 && matches!(music[0], FormPiece::CountOff);
        if !starts_counted {
            let ghost given = music@;
            music.insert(0, FormPiece::CountOff);
            proof {
                assert(piece_views(music@) =~= seq![PieceView::CountOff] + piece_views(given));
            }
        }
        Form { tempo, key, music }
    }

    /// A form of exactly the given pieces.
    pub fn from_pieces(tempo: u32, key: WrittenKey, music: Vec<FormPiece>) -> (r: Form)
        requires
            total_beats(piece_views(music@)) <= u32::MAX,
        ensures
            r@.tempo == tempo,
            r@.key == key,
            r@.pieces == piece_views(music@),
    {
        Form { tempo, key, music }
    }

    pub fn tempo(&self) -> (r: u32)
        ensures
            r == self@.tempo,
    {
        self.tempo
    }

    pub fn key(&self) -> (r: WrittenKey)
        ensures
            r == self@.key,
    {
        self.key
    }

    /// The pieces in order. Together they last no more beats than a beat counter
    /// holds.
    pub fn music(&self) -> (r: &Vec<FormPiece>)
        ensures
            r@ == self.spec_music(),
            piece_views(r@) == self@.pieces,
            total_beats(self@.pieces) <= u32::MAX,
    {
        proof {
            use_type_invariant(self);
        }
        &self.music
    }

    /// The beats that the form lasts: the beats of its pieces added up.
    pub fn length_in_beats(&self) -> (r: u32)
        ensures
            r == total_beats(self@.pieces),
    {
        proof {
            use_type_invariant(self);
        }
        let ghost pieces = piece_views(self.music@);
        let mut beats: u32 = 0;
        let mut i: usize = 0;
        while i < self.music.len()
            invariant
                0 <= i <= self.music.len(),
                pieces == piece_views(self.music@),
                total_beats(pieces) <= u32::MAX,
                beats == total_beats(pieces.take(i as int)),
            decreases self.music.len() - i,
        {
            proof {
                total_beats_of_start(pieces, i + 1);
                assert(pieces.take(i + 1).drop_last() =~= pieces.take(i as int));
                assert(pieces.take(i + 1).last() == self.music@[i as int]@);
            }
            beats = beats + self.music[i].length_in_beats();
            i += 1;
        }
        proof {
            assert(pieces.take(i as int) =~= pieces);
        }
        beats
    }
}

/// A form lasts as long as its pieces together; a key and a line break add nothing.
pub proof fn length_is_the_sum(pieces: Seq<PieceView>, piece: PieceView)
    ensures
        total_beats(pieces.push(piece)) == total_beats(pieces) + piece.beats(),
        (piece is Key || piece is LineBreak) ==> total_beats(pieces.push(piece)) == total_beats(
            pieces,
        ),
        total_beats(Seq::empty()) == 0,
{
    assert(pieces.push(piece).drop_last() =~= pieces);
}

} // verus!
