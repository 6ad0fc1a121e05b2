//! But Beautiful.

use vstd::prelude::*;
use crate::form::chord::ChordView;
use crate::form::form::{bar, half_bar, piece_views, total_beats, Form, FormPiece, PieceView};
use crate::form::key::{Key, Quality};
use crate::form::note::{spelling_of, NoteName, Spelling, A, A_FLAT, B, B_FLAT, D, E, F, G, G_SHARP};
use crate::form::songs::{counted, flat, lacks_count_off, natural, put, sharp, start};

verus! {

/// The first line of But Beautiful, which the second half opens with too.
pub open spec fn first_line_chart() -> Seq<PieceView> {
    seq![
        PieceView::ChordBar(ChordView::maj7(natural(NoteName::G))),
        PieceView::ChordBar(ChordView::dim7(sharp(NoteName::G))),
        PieceView::ChordBar(ChordView::min7(natural(NoteName::A))),
        PieceView::ChordBar(ChordView::dim7(flat(NoteName::B))),
        PieceView::LineBreak,
    ]
}

/// Writes the first line of But Beautiful, which the second half opens with too.
fn first_line(music: &mut Vec<FormPiece>)
    requires
        total_beats(counted(old(music)@)) + 64 <= u32::MAX,
        lacks_count_off(old(music)@),
    ensures
        piece_views(final(music)@) == piece_views(old(music)@) + first_line_chart(),
        total_beats(counted(final(music)@)) == total_beats(counted(old(music)@)) + 16,
        lacks_count_off(final(music)@),
{
    put(music, bar(G().maj7()));
    put(music, bar(G_SHARP().dim7()));
    put(music, bar(A().min7()));
    put(music, bar(B_FLAT().dim7()));
    put(music, FormPiece::LineBreak);
    assert(piece_views(final(music)@) =~= piece_views(old(music)@) + first_line_chart());
}

/// The second line of But Beautiful, which is the second of the second half too.
pub open spec fn second_line_chart() -> Seq<PieceView> {
    seq![
        PieceView::ChordBar(ChordView::maj(natural(NoteName::G))),
        PieceView::HalfBar(ChordView::min(natural(NoteName::D)), ChordView::dominant7(natural(NoteName::E))),
        PieceView::ChordBar(ChordView::dominant7(natural(NoteName::A))),
        PieceView::ChordBar(ChordView::dominant7(natural(NoteName::A))),
        PieceView::LineBreak,
    ]
}

/// Writes the second line of But Beautiful, which is the second of the second half too.
fn second_line(music: &mut Vec<FormPiece>)
    requires
        total_beats(counted(old(music)@)) + 64 <= u32::MAX,
        lacks_count_off(old(music)@),
    ensures
        piece_views(final(music)@) == piece_views(old(music)@) + second_line_chart(),
        total_beats(counted(final(music)@)) == total_beats(counted(old(music)@)) + 16,
        lacks_count_off(final(music)@),
{
    put(music, bar(G().maj()));
    put(music, half_bar(D().min(), E().dominant7()));
    put(music, bar(A().dominant7()));
    put(music, bar(A().dominant7()));
    put(music, FormPiece::LineBreak);
    assert(piece_views(final(music)@) =~= piece_views(old(music)@) + second_line_chart());
}

/// The third line of But Beautiful.
pub open spec fn third_line_chart() -> Seq<PieceView> {
    seq![
        PieceView::ChordBar(ChordView::dominant7(natural(NoteName::D))),
        PieceView::HalfBar(ChordView::maj(natural(NoteName::G)), ChordView::min7(natural(NoteName::E))),
        PieceView::HalfBar(ChordView::min7(natural(NoteName::A)), ChordView::dominant7(natural(NoteName::D))),
        PieceView::ChordBar(ChordView::maj(natural(NoteName::G))),
        PieceView::LineBreak,
    ]
}

/// Writes the third line of But Beautiful.
fn third_line(music: &mut Vec<FormPiece>)
    requires
        total_beats(counted(old(music)@)) + 64 <= u32::MAX,
        lacks_count_off(old(music)@),
    ensures
        piece_views(final(music)@) == piece_views(old(music)@) + third_line_chart(),
        total_beats(counted(final(music)@)) == total_beats(counted(old(music)@)) + 16,
        lacks_count_off(final(music)@),
{
    put(music, bar(D().dominant7()));
    put(music, half_bar(G().maj(), E().min7()));
    put(music, half_bar(A().min7(), D().dominant7()));
    put(music, bar(G().maj()));
    put(music, FormPiece::LineBreak);
    assert(piece_views(final(music)@) =~= piece_views(old(music)@) + third_line_chart());
}

/// The fourth line of But Beautiful.
pub open spec fn fourth_line_chart() -> Seq<PieceView> {
    seq![
        PieceView::ChordBar(ChordView::min7(natural(NoteName::E))),
        PieceView::ChordBar(ChordView::dominant7(natural(NoteName::A))),
        PieceView::ChordBar(ChordView::min7(natural(NoteName::A))),
        PieceView::HalfBar(ChordView::min7(natural(NoteName::A)), ChordView::dominant7(natural(NoteName::D))),
        PieceView::LineBreak,
    ]
}

/// Writes the fourth line of But Beautiful.
fn fourth_line(music: &mut Vec<FormPiece>)
    requires
        total_beats(counted(old(music)@)) + 64 <= u32::MAX,
        lacks_count_off(old(music)@),
    ensures
        piece_views(final(music)@) == piece_views(old(music)@) + fourth_line_chart(),
        total_beats(counted(final(music)@)) == total_beats(counted(old(music)@)) + 16,
        lacks_count_off(final(music)@),
{
    put(music, bar(E().min7()));
    put(music, bar(A().dominant7()));
    put(music, bar(A().min7()));
    put(music, half_bar(A().min7(), D().dominant7()));
    put(music, FormPiece::LineBreak);
    assert(piece_views(final(music)@) =~= piece_views(old(music)@) + fourth_line_chart());
}

/// The seventh line of But Beautiful.
pub open spec fn seventh_line_chart() -> Seq<PieceView> {
    seq![
        PieceView::ChordBar(ChordView::dominant7(natural(NoteName::D))),
        PieceView::HalfBar(ChordView::maj(natural(NoteName::G)), ChordView::min7(natural(NoteName::E))),
        PieceView::HalfBar(ChordView::min7(natural(NoteName::A)), ChordView::dominant7(natural(NoteName::B))),
        PieceView::HalfBar(ChordView::min(natural(NoteName::E)), ChordView::dominant7(natural(NoteName::F))),
        PieceView::LineBreak,
    ]
}

/// Writes the seventh line of But Beautiful.
fn seventh_line(music: &mut Vec<FormPiece>)
    requires
        total_beats(counted(old(music)@)) + 64 <= u32::MAX,
        lacks_count_off(old(music)@),
    ensures
        piece_views(final(music)@) == piece_views(old(music)@) + seventh_line_chart(),
        total_beats(counted(final(music)@)) == total_beats(counted(old(music)@)) + 16,
        lacks_count_off(final(music)@),
{
    put(music, bar(D().dominant7()));
    put(music, half_bar(G().maj(), E().min7()));
    put(music, half_bar(A().min7(), B().dominant7()));
    put(music, half_bar(E().min(), F().dominant7()));
    put(music, FormPiece::LineBreak);
    assert(piece_views(final(music)@) =~= piece_views(old(music)@) + seventh_line_chart());
}

/// The last line of But Beautiful.
pub open spec fn last_line_chart() -> Seq<PieceView> {
    seq![
        PieceView::HalfBar(ChordView::maj(natural(NoteName::G)), ChordView::dominant7(flat(NoteName::B))),
        PieceView::HalfBar(ChordView::min7(natural(NoteName::A)), ChordView::dominant7(flat(NoteName::A))),
        PieceView::ChordBar(ChordView::maj(natural(NoteName::G))),
        PieceView::ChordBar(ChordView::dominant7(natural(NoteName::D))),
    ]
}

/// Writes the last line of But Beautiful.
fn last_line(music: &mut Vec<FormPiece>)
    requires
        total_beats(counted(old(music)@)) + 64 <= u32::MAX,
        lacks_count_off(old(music)@),
    ensures
        piece_views(final(music)@) == piece_views(old(music)@) + last_line_chart(),
        total_beats(counted(final(music)@)) == total_beats(counted(old(music)@)) + 16,
        lacks_count_off(final(music)@),
{
    put(music, half_bar(G().maj(), B_FLAT().dominant7()));
    put(music, half_bar(A().min7(), A_FLAT().dominant7()));
    put(music, bar(G().maj()));
    put(music, bar(D().dominant7()));
    assert(piece_views(final(music)@) =~= piece_views(old(music)@) + last_line_chart());
}

/// The chart of But Beautiful: the count-off and eight lines of four bars.
pub open spec fn but_beautiful_chart() -> Seq<PieceView> {
    seq![PieceView::CountOff] + first_line_chart() + second_line_chart() + third_line_chart() + fourth_line_chart() + first_line_chart() + second_line_chart() + seventh_line_chart() + last_line_chart()
}

/// But Beautiful in G major, 32 bars after the count-off.
pub fn but_beautiful() -> (r: Form)
    ensures
        r@.tempo == 70,
        r@.key.spec_quality() == Quality::Major,
        r@.key.spec_root() == spelling_of(natural(NoteName::G), Spelling::Sharp),
        r@.pieces == but_beautiful_chart(),
        r@.pieces[0] is CountOff,
        total_beats(r@.pieces) == 136,
{
    let mut music = start();
    first_line(&mut music);
    second_line(&mut music);
    third_line(&mut music);
    fourth_line(&mut music);
    first_line(&mut music);
    second_line(&mut music);
    seventh_line(&mut music);
    last_line(&mut music);
    assert(counted(music@) =~= but_beautiful_chart());
    Form::new(70, Key::new(G(), Quality::Major).sharp(), music)
}

} // verus!
