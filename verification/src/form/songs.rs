//! Forms of tunes to practise on.

pub mod autumn_leaves;
pub mod but_beautiful;
pub mod test;

use vstd::prelude::*;
use crate::form::form::{counted_off, piece_views, total_beats, FormPiece, PieceView};
use crate::form::note::{Accidental, NoteName, WrittenNote};

verus! {

/// The pitch class of a natural note.
pub open spec fn natural(name: NoteName) -> int {
    (WrittenNote { name, accidental: Accidental::Natural }).pitch()
}

/// The pitch class a semitone below a natural note.
pub open spec fn flat(name: NoteName) -> int {
    (WrittenNote { name, accidental: Accidental::Flat }).pitch()
}

/// The pitch class a semitone above a natural note.
pub open spec fn sharp(name: NoteName) -> int {
    (WrittenNote { name, accidental: Accidental::Sharp }).pitch()
}

/// The views of the pieces of a song behind the count-off that it starts with.
pub(crate) open spec fn counted(music: Seq<FormPiece>) -> Seq<PieceView> {
    seq![PieceView::CountOff] + piece_views(music)
}

/// Whether a count-off will be put in front of these pieces.
pub(crate) open spec fn lacks_count_off(music: Seq<FormPiece>) -> bool {
    counted_off(piece_views(music)) == counted(music)
}

/// Nothing written yet, but the count-off that will stand in front.
pub(crate) fn start() -> (music: Vec<FormPiece>)
    ensures
        music@.len() == 0,
        piece_views(music@) == Seq::<PieceView>::empty(),
        total_beats(counted(music@)) == 8,
        lacks_count_off(music@),
{
    let music: Vec<FormPiece> = Vec::new();
    proof {
        assert(piece_views(music@) =~= Seq::<PieceView>::empty());
        assert(counted(music@) =~= seq![PieceView::CountOff]);
        assert(counted(music@).drop_last() =~= Seq::<PieceView>::empty());
        assert(total_beats(Seq::<PieceView>::empty()) == 0);
    }
    music
}

/// Writes the next piece of a song.
pub(crate) fn put(music: &mut Vec<FormPiece>, piece: FormPiece)
    requires
        total_beats(counted(old(music)@)) + 8 <= u32::MAX,
        lacks_count_off(old(music)@),
        !(piece is CountOff),
    ensures
        piece_views(final(music)@) == piece_views(old(music)@).push(piece@),
        total_beats(counted(final(music)@)) == total_beats(counted(old(music)@)) + piece@.beats(),
        lacks_count_off(final(music)@),
{
    let ghost before = music@;
    music.push(piece);
    proof {
        assert(piece_views(music@) =~= piece_views(before).push(piece@));
        assert(counted(music@).drop_last() =~= counted(before));
        assert(counted(music@).last() == piece@);
        assert(piece_views(music@)[0] == music@[0]@);
        if before.len() > 0 {
            assert(piece_views(before)[0] == before[0]@);
            assert(music@[0] == before[0]);
        }
        assert(counted_off(piece_views(music@)) =~= counted(music@));
    }
}

} // verus!
