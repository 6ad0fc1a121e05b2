//! Autumn Leaves.

use vstd::prelude::*;
use crate::form::chord::ChordView;
use crate::form::form::{bar, half_bar, piece_views, total_beats, Form, FormPiece, PieceView};
use crate::form::key::{Key, Quality};
use crate::form::note::{spelling_of, NoteName, Spelling, A, B_FLAT, C, D, E, E_FLAT, F, G, G_FLAT};
use crate::form::songs::{counted, flat, lacks_count_off, natural, put, start};

verus! {

/// The first line of the A section of Autumn Leaves.
pub open spec fn a_section_opening_chart() -> Seq<PieceView> {
    seq![
        PieceView::ChordBar(ChordView::min7(natural(NoteName::C))),
        PieceView::ChordBar(ChordView::dominant7(natural(NoteName::F))),
        PieceView::ChordBar(ChordView::maj7(flat(NoteName::B))),
        PieceView::ChordBar(ChordView::maj7(flat(NoteName::E))),
        PieceView::LineBreak,
    ]
}

/// Writes the first line of the A section of Autumn Leaves.
fn a_section_opening(music: &mut Vec<FormPiece>)
    requires
        total_beats(counted(old(music)@)) + 64 <= u32::MAX,
        lacks_count_off(old(music)@),
    ensures
        piece_views(final(music)@) == piece_views(old(music)@) + a_section_opening_chart(),
        total_beats(counted(final(music)@)) == total_beats(counted(old(music)@)) + 16,
        lacks_count_off(final(music)@),
{
    put(music, bar(C().min7()));
    put(music, bar(F().dominant7()));
    put(music, bar(B_FLAT().maj7()));
    put(music, bar(E_FLAT().maj7()));
    put(music, FormPiece::LineBreak);
    assert(piece_views(final(music)@) =~= piece_views(old(music)@) + a_section_opening_chart());
}

/// The second line of the A section of Autumn Leaves, which the B section opens with too.
pub open spec fn a_section_close_chart() -> Seq<PieceView> {
    seq![
        PieceView::ChordBar(ChordView::m7b5(natural(NoteName::A))),
        PieceView::ChordBar(ChordView::dominant7(natural(NoteName::D))),
        PieceView::ChordBar(ChordView::min(natural(NoteName::G))),
        PieceView::ChordBar(ChordView::min(natural(NoteName::G))),
        PieceView::LineBreak,
    ]
}

/// Writes the second line of the A section of Autumn Leaves, which the B section opens with too.
fn a_section_close(music: &mut Vec<FormPiece>)
    requires
        total_beats(counted(old(music)@)) + 64 <= u32::MAX,
        lacks_count_off(old(music)@),
    ensures
        piece_views(final(music)@) == piece_views(old(music)@) + a_section_close_chart(),
        total_beats(counted(final(music)@)) == total_beats(counted(old(music)@)) + 16,
        lacks_count_off(final(music)@),
{
    put(music, bar(A().m7b5()));
    put(music, bar(D().dominant7()));
    put(music, bar(G().min()));
    put(music, bar(G().min()));
    put(music, FormPiece::LineBreak);
    assert(piece_views(final(music)@) =~= piece_views(old(music)@) + a_section_close_chart());
}

/// The second line of the B section of Autumn Leaves.
pub open spec fn b_section_turn_chart() -> Seq<PieceView> {
    seq![
        PieceView::ChordBar(ChordView::min7(natural(NoteName::C))),
        PieceView::ChordBar(ChordView::dominant7(natural(NoteName::F))),
        PieceView::ChordBar(ChordView::maj7(flat(NoteName::B))),
        PieceView::ChordBar(ChordView::maj7(flat(NoteName::B))),
        PieceView::LineBreak,
    ]
}

/// Writes the second line of the B section of Autumn Leaves.
fn b_section_turn(music: &mut Vec<FormPiece>)
    requires
        total_beats(counted(old(music)@)) + 64 <= u32::MAX,
        lacks_count_off(old(music)@),
    ensures
        piece_views(final(music)@) == piece_views(old(music)@) + b_section_turn_chart(),
        total_beats(counted(final(music)@)) == total_beats(counted(old(music)@)) + 16,
        lacks_count_off(final(music)@),
{
    put(music, bar(C().min7()));
    put(music, bar(F().dominant7()));
    put(music, bar(B_FLAT().maj7()));
    put(music, bar(B_FLAT().maj7()));
    put(music, FormPiece::LineBreak);
    assert(piece_views(final(music)@) =~= piece_views(old(music)@) + b_section_turn_chart());
}

/// The third line of the B section of Autumn Leaves.
pub open spec fn b_section_descent_chart() -> Seq<PieceView> {
    seq![
        PieceView::ChordBar(ChordView::m7b5(natural(NoteName::A))),
        PieceView::ChordBar(ChordView::dominant7(natural(NoteName::D))),
        PieceView::HalfBar(ChordView::min7(natural(NoteName::G)), ChordView::dominant7(flat(NoteName::G))),
        PieceView::HalfBar(ChordView::min7(natural(NoteName::F)), ChordView::dominant7(natural(NoteName::E))),
        PieceView::LineBreak,
    ]
}

/// Writes the third line of the B section of Autumn Leaves.
fn b_section_descent(music: &mut Vec<FormPiece>)
    requires
        total_beats(counted(old(music)@)) + 64 <= u32::MAX,
        lacks_count_off(old(music)@),
    ensures
        piece_views(final(music)@) == piece_views(old(music)@) + b_section_descent_chart(),
        total_beats(counted(final(music)@)) == total_beats(counted(old(music)@)) + 16,
        lacks_count_off(final(music)@),
{
    put(music, bar(A().m7b5()));
    put(music, bar(D().dominant7()));
    put(music, half_bar(G().min7(), G_FLAT().dominant7()));
    put(music, half_bar(F().min7(), E().dominant7()));
    put(music, FormPiece::LineBreak);
    assert(piece_views(final(music)@) =~= piece_views(old(music)@) + b_section_descent_chart());
}

/// The last line of the B section of Autumn Leaves.
pub open spec fn b_section_close_chart() -> Seq<PieceView> {
    seq![
        PieceView::ChordBar(ChordView::min7(flat(NoteName::E))),
        PieceView::HalfBar(ChordView::m7b5(natural(NoteName::A)), ChordView::dominant7(natural(NoteName::D))),
        PieceView::ChordBar(ChordView::min7(natural(NoteName::G))),
        PieceView::ChordBar(ChordView::min7(natural(NoteName::G))),
        PieceView::LineBreak,
    ]
}

/// Writes the last line of the B section of Autumn Leaves.
fn b_section_close(music: &mut Vec<FormPiece>)
    requires
        total_beats(counted(old(music)@)) + 64 <= u32::MAX,
        lacks_count_off(old(music)@),
    ensures
        piece_views(final(music)@) == piece_views(old(music)@) + b_section_close_chart(),
        total_beats(counted(final(music)@)) == total_beats(counted(old(music)@)) + 16,
        lacks_count_off(final(music)@),
{
    put(music, bar(E_FLAT().min7()));
    put(music, half_bar(A().m7b5(), D().dominant7()));
    put(music, bar(G().min7()));
    put(music, bar(G().min7()));
    put(music, FormPiece::LineBreak);
    assert(piece_views(final(music)@) =~= piece_views(old(music)@) + b_section_close_chart());
}

/// The chart of Autumn Leaves: the count-off, the A section twice, and the B section.
pub open spec fn autumn_leaves_chart() -> Seq<PieceView> {
    seq![PieceView::CountOff] + a_section_opening_chart() + a_section_close_chart() + a_section_opening_chart() + a_section_close_chart() + a_section_close_chart() + b_section_turn_chart() + b_section_descent_chart() + b_section_close_chart()
}

/// Autumn Leaves in G minor: the A section twice and the B section, 32 bars after the count-off.
pub fn autumn_leaves() -> (r: Form)
    ensures
        r@.tempo == 110,
        r@.key.spec_quality() == Quality::Minor,
        r@.key.spec_root() == spelling_of(natural(NoteName::G), Spelling::Flat),
        r@.pieces == autumn_leaves_chart(),
        r@.pieces[0] is CountOff,
        total_beats(r@.pieces) == 136,
{
    let mut music = start();
    a_section_opening(&mut music);
    a_section_close(&mut music);
    a_section_opening(&mut music);
    a_section_close(&mut music);
    a_section_close(&mut music);
    b_section_turn(&mut music);
    b_section_descent(&mut music);
    b_section_close(&mut music);
    assert(counted(music@) =~= autumn_leaves_chart());
    Form::new(110, Key::new(G(), Quality::Minor).flat(), music)
}

} // verus!
