//! Canonical eight-way facing used by character sheets and movement.

use vstd::prelude::*;
use rand::Rng;
use rand::rngs::ThreadRng;

verus! {

/// Canonical 8-way facing. Order matches the helmsman export filenames.
#[derive(Clone, Copy, Debug, PartialEq, Eq, Hash, Structural)]
pub enum EightDirection {
    South,
    SouthEast,
    East,
    NorthEast,
    North,
    NorthWest,
    West,
    SouthWest,
}

impl Default for EightDirection {
    fn default() -> (r: Self)
        ensures
            r == EightDirection::South,
    {
        EightDirection::South
    }
}

/// Every facing in canonical order.
pub open spec fn all_directions() -> Seq<EightDirection> {
    seq![
        EightDirection::South,
        EightDirection::SouthEast,
        EightDirection::East,
        EightDirection::NorthEast,
        EightDirection::North,
        EightDirection::NorthWest,
        EightDirection::West,
        EightDirection::SouthWest,
    ]
}

/// Position of a facing in [`all_directions`].
pub open spec fn direction_ordinal(d: EightDirection) -> int {
    match d {
        EightDirection::South => 0,
        EightDirection::SouthEast => 1,
        EightDirection::East => 2,
        EightDirection::NorthEast => 3,
        EightDirection::North => 4,
        EightDirection::NorthWest => 5,
        EightDirection::West => 6,
        EightDirection::SouthWest => 7,
    }
}

/// Runtime sheet suffix of a facing.
pub open spec fn direction_suffix(d: EightDirection) -> Seq<char> {
    match d {
        EightDirection::South => "south"@,
        EightDirection::SouthEast => "southeast"@,
        EightDirection::East => "east"@,
        EightDirection::NorthEast => "northeast"@,
        EightDirection::North => "north"@,
        EightDirection::NorthWest => "northwest"@,
        EightDirection::West => "west"@,
        EightDirection::SouthWest => "southwest"@,
    }
}

/// Unit facing step (x east, y north) of a facing.
pub open spec fn direction_step(d: EightDirection) -> (int, int) {
    match d {
        EightDirection::South => (0, -1),
        EightDirection::SouthEast => (1, -1),
        EightDirection::East => (1, 0),
        EightDirection::NorthEast => (1, 1),
        EightDirection::North => (0, 1),
        EightDirection::NorthWest => (-1, 1),
        EightDirection::West => (-1, 0),
        EightDirection::SouthWest => (-1, -1),
    }
}

/// The facings a random turn may choose: every facing except `avoid`, in
/// canonical order.
pub open spec fn turn_choices(avoid: Option<EightDirection>) -> Seq<EightDirection> {
    match avoid {
        Some(a) => all_directions().remove(direction_ordinal(a)),
        None => all_directions(),
    }
}

impl EightDirection {
    /// Every facing in canonical order.
    pub fn all() -> (r: Vec<EightDirection>)
        ensures
            r@ == all_directions(),
    {
        let r = vec![
            EightDirection::South,
            EightDirection::SouthEast,
            EightDirection::East,
            EightDirection::NorthEast,
            EightDirection::North,
            EightDirection::NorthWest,
            EightDirection::West,
            EightDirection::SouthWest,
        ];
        assert(r@ =~= all_directions());
        r
    }

    /// Position of this facing in the canonical order.
    pub fn index(self) -> (r: usize)
        ensures
            r == direction_ordinal(self),
            r < 8,
            all_directions()[r as int] == self,
    {
        match self {
            EightDirection::South => 0,
            EightDirection::SouthEast => 1,
            EightDirection::East => 2,
            EightDirection::NorthEast => 3,
            EightDirection::North => 4,
            EightDirection::NorthWest => 5,
            EightDirection::West => 6,
            EightDirection::SouthWest => 7,
        }
    }

    /// Facing at a canonical position.
    pub fn from_index(i: usize) -> (r: EightDirection)
        requires
            i < 8,
        ensures
            r == all_directions()[i as int],
            direction_ordinal(r) == i,
    {
        match i {
            0 => EightDirection::South,
            1 => EightDirection::SouthEast,
            2 => EightDirection::East,
            3 => EightDirection::NorthEast,
            4 => EightDirection::North,
            5 => EightDirection::NorthWest,
            6 => EightDirection::West,
            _ => EightDirection::SouthWest,
        }
    }

    /// File suffix for runtime sheets (`south`, `southeast`, ...).
    pub fn file_suffix(self) -> (r: &'static str)
        ensures
            r@ == direction_suffix(self),
    {
        match self {
            EightDirection::South => "south",
            EightDirection::SouthEast => "southeast",
            EightDirection::East => "east",
            EightDirection::NorthEast => "northeast",
            EightDirection::North => "north",
            EightDirection::NorthWest => "northwest",
            EightDirection::West => "west",
            EightDirection::SouthWest => "southwest",
        }
    }

    /// Unit facing step in world space (x east, y north; diagonals are
    /// `(±1, ±1)`, not normalised).
    pub fn to_vec2(self) -> (r: (i32, i32))
        ensures
            r.0 == direction_step(self).0,
            r.1 == direction_step(self).1,
    {
        match self {
            EightDirection::South => (0, -1),
            EightDirection::SouthEast => (1, -1),
            EightDirection::East => (1, 0),
            EightDirection::NorthEast => (1, 1),
            EightDirection::North => (0, 1),
            EightDirection::NorthWest => (-1, 1),
            EightDirection::West => (-1, 0),
            EightDirection::SouthWest => (-1, -1),
        }
    }

    /// The `pick`-th facing among all facings other than `avoid`.
    pub fn pick_other(avoid: Option<EightDirection>, pick: usize) -> (r: EightDirection)
        requires
            pick < turn_choices(avoid).len(),
        ensures
            r == turn_choices(avoid)[pick as int],
            avoid != Some(r),
    {
        match avoid {
            None => EightDirection::from_index(pick),
            Some(a) => {
                let skip = a.index();
                let i = if pick < skip { pick } else { pick + 1 };
                EightDirection::from_index(i)
            },
        }
    }

    /// Pick a random facing different from `avoid`: an index drawn uniformly
    /// below the number of remaining facings picks among them in order.
    pub fn random_other(draws: &mut ThreadDraws, avoid: Option<EightDirection>) -> (r: EightDirection)
        ensures
            avoid != Some(r),
            turn_choices(avoid).contains(r),
            final(draws).bounds() == old(draws).bounds().push(turn_choices(avoid).len() as usize),
    {
        proof {
            lemma_turn_choices_len(avoid);
        }
        let n: usize = match avoid {
            Some(_) => 7,
            None => 8,
        };
        let pick = random_below(draws, n);
        EightDirection::pick_other(avoid, pick)
    }
}

/// Seven facings remain when one is avoided, eight otherwise.
pub proof fn lemma_turn_choices_len(avoid: Option<EightDirection>)
    ensures
        turn_choices(avoid).len() == if avoid is Some { 7int } else { 8int },
{
}

/// The thread-local random generator of `rand`, carried through opaquely.
#[verifier::external_type_specification]
#[verifier::external_body]
pub struct ExThreadRng(rand::rngs::ThreadRng);

/// The thread-local generator, with a ghost record of the bounds that it
/// has been asked to draw an index below, in order.
pub struct ThreadDraws {
    rng: ThreadRng,
    bounds: Ghost<Seq<usize>>,
}

impl ThreadDraws {
    /// Bounds handed to the generator so far, oldest first.
    pub closed spec fn bounds(&self) -> Seq<usize> {
        self.bounds@
    }

    /// Wrap a thread-local generator that has drawn nothing yet.
    pub fn new(rng: ThreadRng) -> (d: ThreadDraws)
        ensures
            d.bounds() == Seq::<usize>::empty(),
    {
        ThreadDraws { rng, bounds: Ghost(Seq::empty()) }
    }
}

/// `rand::Rng::gen_range(0..len)` on the thread-local generator: a uniformly
/// drawn index below `len`, with `len` appended to the record of bounds.
/// Nothing more is claimed of which index comes out.
#[verifier::external_body]
fn random_below(draws: &mut ThreadDraws, len: usize) -> (r: usize)
    requires
        len > 0,
    ensures
        r < len,
        final(draws).bounds() == old(draws).bounds().push(len),
{
    draws.rng.gen_range(0..len)
}

} // verus!
