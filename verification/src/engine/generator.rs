//! Where the pieces come from.
//!
//! The engines draw from a [`TetrominoGenerator`]. The standard one is the
//! [`BagGenerator`]: it hands out the seven shapes in a random order, then
//! the seven again in a new random order, and so on, so that every run of
//! seven draws that starts with a fresh bag holds each shape once.

use std::collections::VecDeque;
use rand::Rng;
use vstd::prelude::*;
use crate::piece::Tetromino;

verus! {

/// A source of pieces.
pub trait TetrominoGenerator {
    fn next(&mut self) -> Tetromino;
}

/// Whether a sequence of pieces is one bag: seven pieces, no two alike.
pub open spec fn is_full_bag(pieces: Seq<Tetromino>) -> bool {
    pieces.len() == 7 && pieces.no_duplicates()
}

/// The seven shapes in a fixed order.
pub open spec fn sorted_bag() -> Seq<Tetromino> {
    seq![
        Tetromino::I,
        Tetromino::O,
        Tetromino::T,
        Tetromino::S,
        Tetromino::Z,
        Tetromino::J,
        Tetromino::L,
    ]
}

/// The position of a shape in [`sorted_bag`].
pub open spec fn shape_index(shape: Tetromino) -> int {
    match shape {
        Tetromino::I => 0,
        Tetromino::O => 1,
        Tetromino::T => 2,
        Tetromino::S => 3,
        Tetromino::Z => 4,
        Tetromino::J => 5,
        Tetromino::L => 6,
    }
}

/// `rand::Rng::shuffle`, on the generator that `rand::thread_rng` gives:
/// rearranges the pieces of a bag in place. It does so by swapping pairs of
/// them, so the bag holds the same pieces afterwards, each as often as
/// before; in which order is left to chance.
#[verifier::external_body]
fn shuffle(bag: &mut [Tetromino; 7])
    ensures
        final(bag)@.to_multiset() == old(bag)@.to_multiset(),
{
    rand::thread_rng().shuffle(bag);
}

/// Any arrangement of the pieces of a bag is a bag.
pub proof fn lemma_rearranged_bag_is_full(bag: Seq<Tetromino>, rearranged: Seq<Tetromino>)
    requires
        is_full_bag(bag),
        rearranged.to_multiset() == bag.to_multiset(),
    ensures
        is_full_bag(rearranged),
{
    bag.to_multiset_ensures();
    rearranged.to_multiset_ensures();
    bag.lemma_multiset_has_no_duplicates();
    rearranged.lemma_multiset_has_no_duplicates_conv();
}

/// The pieces handed out from a bag stay distinct: what is left of a bag
/// after some draws has no two pieces alike.
pub open spec fn is_partial_bag(pieces: Seq<Tetromino>) -> bool {
    pieces.no_duplicates()
}

/// The bag that the next piece is drawn from: the bag as it is, or a fresh
/// one where it is used up.
pub open spec fn bag_to_draw_from(bag: Seq<Tetromino>, fresh: Seq<Tetromino>) -> Seq<Tetromino> {
    if bag.len() == 0 {
        fresh
    } else {
        bag
    }
}

/// The pieces that `n` draws hand out, one after another, from a bag that is
/// replaced by `fresh` when it is used up.
pub open spec fn drawn_pieces(bag: Seq<Tetromino>, fresh: Seq<Tetromino>, n: nat) -> Seq<Tetromino>
    decreases n,
{
    if n == 0 || fresh.len() == 0 {
        Seq::empty()
    } else {
        let from = bag_to_draw_from(bag, fresh);
        seq![from[0]] + drawn_pieces(from.skip(1), fresh, (n - 1) as nat)
    }
}

/// What is left of the bag after `n` draws.
pub open spec fn bag_after_draws(bag: Seq<Tetromino>, fresh: Seq<Tetromino>, n: nat) -> Seq<
    Tetromino,
>
    decreases n,
{
    if n == 0 || fresh.len() == 0 {
        bag
    } else {
        bag_after_draws(bag_to_draw_from(bag, fresh).skip(1), fresh, (n - 1) as nat)
    }
}

/// Draws that stay within one bag hand out its pieces in their order.
proof fn lemma_draws_within_a_bag(bag: Seq<Tetromino>, fresh: Seq<Tetromino>, n: nat)
    requires
        n <= bag.len(),
        fresh.len() > 0,
    ensures
        drawn_pieces(bag, fresh, n) == bag.take(n as int),
        bag_after_draws(bag, fresh, n) == bag.skip(n as int),
    decreases n,
{
    if n == 0 {
        assert(bag.take(0) =~= Seq::empty());
        assert(bag.skip(0) =~= bag);
    } else {
        lemma_draws_within_a_bag(bag.skip(1), fresh, (n - 1) as nat);
        assert(seq![bag[0]] + bag.skip(1).take(n - 1) =~= bag.take(n as int));
        assert(bag.skip(1).skip(n - 1) =~= bag.skip(n as int));
    }
}

/// Seven draws in a row, starting with a fresh bag or with a bag that is used
/// up, hand out seven pieces no two of which are alike, and use the bag up
/// again.
pub proof fn lemma_seven_draws_are_one_bag(bag: Seq<Tetromino>, fresh: Seq<Tetromino>)
    requires
        is_full_bag(fresh),
        bag.len() == 0 || is_full_bag(bag),
    ensures
        is_full_bag(drawn_pieces(bag, fresh, 7)),
        drawn_pieces(bag, fresh, 7) == bag_to_draw_from(bag, fresh),
        bag_after_draws(bag, fresh, 7).len() == 0,
{
    let from = bag_to_draw_from(bag, fresh);
    lemma_draws_within_a_bag(from.skip(1), fresh, 6);
    assert(seq![from[0]] + from.skip(1).take(6) =~= from);
    assert(from.skip(1).skip(6) =~= from.skip(7));
}

/// A bag holds every shape.
pub proof fn lemma_full_bag_has_every_shape(bag: Seq<Tetromino>, shape: Tetromino)
    requires
        is_full_bag(bag),
    ensures
        bag.contains(shape),
{
    // Seven distinct shapes are seven distinct positions in the sorted bag,
    // which has no more than seven.
    let positions = bag.map_values(|t: Tetromino| shape_index(t));
    assert(positions.no_duplicates()) by {
        assert forall|i: int, j: int|
            0 <= i < positions.len() && 0 <= j < positions.len() && i != j implies positions[i]
            != positions[j] by {
            assert(bag[i] != bag[j]);
        }
    }
    let taken = positions.to_set();
    positions.unique_seq_to_set();
    vstd::seq_lib::seq_to_set_is_finite(positions);
    let all = Set::new(|k: int| 0 <= k < 7);
    assert(all =~= vstd::set_lib::set_int_range(0, 7));
    vstd::set_lib::lemma_int_range(0, 7);
    assert(taken.subset_of(all)) by {
        assert forall|k: int| taken.contains(k) implies all.contains(k) by {
            let i = choose|i: int| 0 <= i < positions.len() && positions[i] == k;
            assert(k == shape_index(bag[i]));
        }
    }
    vstd::set_lib::lemma_subset_equality(taken, all);
    assert(taken.contains(shape_index(shape)));
    let i = choose|i: int| 0 <= i < positions.len() && positions[i] == shape_index(shape);
    assert(bag[i] == shape);
}

/// Hands out the seven shapes, shuffled, bag after bag.
pub struct BagGenerator {
    bag: VecDeque<Tetromino>,
}

impl View for BagGenerator {
    type V = Seq<Tetromino>;

    /// The pieces left in the current bag, the next one first.
    closed spec fn view(&self) -> Seq<Tetromino> {
        self.bag@
    }
}

impl BagGenerator {
    /// Creates a generator with a fresh bag.
    pub fn new() -> (generator: BagGenerator)
        ensures
            is_full_bag(generator@),
    {
        let mut generator = BagGenerator { bag: VecDeque::with_capacity(7) };
        generator.refill();
        generator
    }

    /// Creates a freshly shuffled bag.
    pub fn new_bag() -> (bag: [Tetromino; 7])
        ensures
            is_full_bag(bag@),
    {
        let mut bag = [
            Tetromino::I,
            Tetromino::O,
            Tetromino::T,
            Tetromino::S,
            Tetromino::Z,
            Tetromino::J,
            Tetromino::L,
        ];
        let ghost sorted = bag@;
        assert(is_full_bag(sorted));
        shuffle(&mut bag);
        proof {
            lemma_rearranged_bag_is_full(sorted, bag@);
        }
        bag
    }

    /// Puts a fresh bag behind the pieces that are left.
    fn refill(&mut self)
        requires
            old(self)@.len() == 0,
        ensures
            is_full_bag(final(self)@),
    {
        let fresh = BagGenerator::new_bag();
        let mut i: usize = 0;
        while i < 7
            invariant
                i <= 7,
                self.bag@ == fresh@.take(i as int),
            decreases 7 - i,
        {
            self.bag.push_back(fresh[i]);
            assert(fresh@.take(i as int).push(fresh@[i as int]) =~= fresh@.take(i + 1));
            i += 1;
        }
        assert(fresh@.take(7) =~= fresh@);
    }
}

impl TetrominoGenerator for BagGenerator {
    /// Hands out the next piece of the bag, after replacing the bag by a
    /// fresh one where it is used up.
    fn next(&mut self) -> (piece: Tetromino)
        ensures
            old(self)@.len() > 0 ==> piece == old(self)@[0] && final(self)@ == old(self)@.skip(1),
            old(self)@.len() == 0 ==> is_full_bag(seq![piece] + final(self)@),
            is_partial_bag(old(self)@) ==> is_partial_bag(final(self)@),
    {
        if self.bag.len() == 0 {
            self.refill();
        }
        let ghost from = self.bag@;
        // Since we fill the bag if it is empty, there is a piece in front.
        let piece = self.bag.pop_front().unwrap();
        proof {
            assert(seq![piece] + self.bag@ =~= from);
            assert(self.bag@ =~= from.skip(1));
        }
        piece
    }
}

/// The shape with a given position in the order `I`, `O`, `T`, `S`, `Z`,
/// `J`, `L`, counted from 0.
pub fn tetromino_at(index: u8) -> (shape: Tetromino)
    requires
        index < 7,
    ensures
        shape == sorted_bag()[index as int],
        shape_index(shape) == index,
{
    match index {
        0 => Tetromino::I,
        1 => Tetromino::O,
        2 => Tetromino::T,
        3 => Tetromino::S,
        4 => Tetromino::Z,
        5 => Tetromino::J,
        _ => Tetromino::L,
    }
}

} // verus!
