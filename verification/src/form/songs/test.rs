//! Short forms to try things out on.

use vstd::prelude::*;
use crate::form::chord::ChordView;
use crate::form::form::{bar, piece_views, total_beats, Form, FormPiece, PieceView};
use crate::form::key::{Key, Quality};
use crate::form::note::{spelling_of, NoteName, Spelling, B_FLAT, C, E_FLAT, F, G};
use crate::form::songs::{counted, flat, lacks_count_off, natural, put, start};

verus! {

/// Two bars that move from C minor to F.
pub open spec fn two_bars_chart() -> Seq<PieceView> {
    seq![
        PieceView::ChordBar(ChordView::min7(natural(NoteName::C))),
        PieceView::ChordBar(ChordView::dominant7(natural(NoteName::F))),
        PieceView::LineBreak,
    ]
}

/// Writes two bars that move from C minor to F.
fn two_bars(music: &mut Vec<FormPiece>)
    requires
        total_beats(counted(old(music)@)) + 64 <= u32::MAX,
        lacks_count_off(old(music)@),
    ensures
        piece_views(final(music)@) == piece_views(old(music)@) + two_bars_chart(),
        total_beats(counted(final(music)@)) == total_beats(counted(old(music)@)) + 8,
        lacks_count_off(final(music)@),
{
    put(music, bar(C().min7()));
    put(music, bar(F().dominant7()));
    put(music, FormPiece::LineBreak);
    assert(piece_views(final(music)@) =~= piece_views(old(music)@) + two_bars_chart());
}

/// The chart of the short form: the count-off and two bars.
pub open spec fn test_chart() -> Seq<PieceView> {
    seq![PieceView::CountOff] + two_bars_chart()
}

/// Two bars in G minor.
pub fn test() -> (r: Form)
    ensures
        r@.tempo == 110,
        r@.key.spec_quality() == Quality::Minor,
        r@.key.spec_root() == spelling_of(natural(NoteName::G), Spelling::Flat),
        r@.pieces == test_chart(),
        r@.pieces[0] is CountOff,
        total_beats(r@.pieces) == 16,
{
    let mut music = start();
    two_bars(&mut music);
    assert(counted(music@) =~= test_chart());
    Form::new(110, Key::new(G(), Quality::Minor).flat(), music)
}

/// The four bars that Autumn Leaves opens with.
pub open spec fn four_bars_chart() -> Seq<PieceView> {
    seq![
        PieceView::ChordBar(ChordView::min7(natural(NoteName::C))),
        PieceView::ChordBar(ChordView::dominant7(natural(NoteName::F))),
        PieceView::ChordBar(ChordView::maj7(flat(NoteName::B))),
        PieceView::ChordBar(ChordView::maj7(flat(NoteName::E))),
        PieceView::LineBreak,
    ]
}

/// Writes the four bars that Autumn Leaves opens with.
fn four_bars(music: &mut Vec<FormPiece>)
    requires
        total_beats(counted(old(music)@)) + 64 <= u32::MAX,
        lacks_count_off(old(music)@),
    ensures
        piece_views(final(music)@) == piece_views(old(music)@) + four_bars_chart(),
        total_beats(counted(final(music)@)) == total_beats(counted(old(music)@)) + 16,
        lacks_count_off(final(music)@),
{
    put(music, bar(C().min7()));
    put(music, bar(F().dominant7()));
    put(music, bar(B_FLAT().maj7()));
    put(music, bar(E_FLAT().maj7()));
    put(music, FormPiece::LineBreak);
    assert(piece_views(final(music)@) =~= piece_views(old(music)@) + four_bars_chart());
}

/// The chart of the longer form: the count-off and four bars.
pub open spec fn longer_test_chart() -> Seq<PieceView> {
    seq![PieceView::CountOff] + four_bars_chart()
}

/// The first four bars of Autumn Leaves.
pub fn longer_test() -> (r: Form)
    ensures
        r@.tempo == 110,
        r@.key.spec_quality() == Quality::Minor,
        r@.key.spec_root() == spelling_of(natural(NoteName::G), Spelling::Flat),
        r@.pieces == longer_test_chart(),
        r@.pieces[0] is CountOff,
        total_beats(r@.pieces) == 24,
{
    let mut music = start();
    four_bars(&mut music);
    assert(counted(music@) =~= longer_test_chart());
    Form::new(110, Key::new(G(), Quality::Minor).flat(), music)
}

} // verus!
