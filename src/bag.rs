//! The seven-piece bag: each run of seven draws between reshuffles hands out
//! every kind exactly once.
use vstd::prelude::*;

use rand::rngs::ThreadRng;
use rand::seq::SliceRandom;

use crate::tetrimino::TetriminoType;

verus! {

broadcast use vstd::seq_lib::group_to_multiset_ensures;

#[verifier::external_type_specification]
#[verifier::external_body]
pub struct ExThreadRng(ThreadRng);

/// Relies on rand::thread_rng: it hands out the calling thread's random
/// generator; nothing is promised of the numbers it will give.
pub assume_specification[ rand::thread_rng ]() -> ThreadRng;

/// Relies on rand's `SliceRandom::shuffle` for slices: it only swaps items
/// (a Fisher-Yates shuffle), so the result holds the same items.
#[verifier::external_body]
fn shuffle_kinds(kinds: &mut [TetriminoType; 7], rng: &mut ThreadRng)
    ensures
        final(kinds)@.to_multiset() == old(kinds)@.to_multiset(),
{
    kinds.shuffle(rng);
}

/// The seven kinds, each once.
pub open spec fn all_kinds() -> Seq<TetriminoType> {
    seq![
        TetriminoType::I,
        TetriminoType::O,
        TetriminoType::T,
        TetriminoType::S,
        TetriminoType::Z,
        TetriminoType::J,
        TetriminoType::L,
    ]
}

/// `s` is an ordering of the seven kinds.
pub open spec fn is_bag(s: Seq<TetriminoType>) -> bool {
    s.to_multiset() == all_kinds().to_multiset()
}

/// Hands out piece kinds from a shuffled bag of all seven, reshuffling once
/// the bag is used up.
pub struct SevenGenerator {
    rng: ThreadRng,
    types: [TetriminoType; 7],
    idx: usize,
}

impl SevenGenerator {
    /// The current order of the bag.
    pub closed spec fn bag(self) -> Seq<TetriminoType> {
        self.types@
    }

    /// How many kinds of the current bag have been handed out.
    pub closed spec fn cursor(self) -> int {
        self.idx as int
    }

    /// The bag is an ordering of the seven kinds and the cursor lies in `[0, 7]`.
    pub open spec fn wf(self) -> bool {
        &&& is_bag(self.bag())
        &&& 0 <= self.cursor() <= 7
    }

    /// One draw takes the generator from `self` to `after` and hands out `k`:
    /// the next kind of the bag, or, once the bag is used up, the first kind
    /// of a reshuffled bag.
    pub open spec fn draws(self, after: Self, k: TetriminoType) -> bool {
        if self.cursor() < 7 {
            &&& after.bag() == self.bag()
            &&& after.cursor() == self.cursor() + 1
            &&& k == self.bag()[self.cursor()]
        } else {
            &&& after.bag().to_multiset() == self.bag().to_multiset()
            &&& after.cursor() == 1
            &&& k == after.bag()[0]
        }
    }

    /// A generator with a freshly shuffled bag, nothing handed out yet.
    pub fn new() -> (r: Self)
        ensures
            r.wf(),
            r.cursor() == 0,
    {
        let mut rng = rand::thread_rng();
        let mut types = [
            TetriminoType::I,
            TetriminoType::O,
            TetriminoType::T,
            TetriminoType::S,
            TetriminoType::Z,
            TetriminoType::J,
            TetriminoType::L,
        ];
        assert(types@ =~= all_kinds());
        shuffle_kinds(&mut types, &mut rng);
        SevenGenerator { rng, types, idx: 0 }
    }

    /// A generator whose first bag is `types`, in that order, nothing handed
    /// out yet; later bags are shuffled.
    pub fn with_bag(types: [TetriminoType; 7]) -> (r: Self)
        requires
            is_bag(types@),
        ensures
            r.wf(),
            r.bag() == types@,
            r.cursor() == 0,
    {
        SevenGenerator { rng: rand::thread_rng(), types, idx: 0 }
    }

    /// The next kind: reshuffles first when the whole bag has been handed out.
    pub fn next(&mut self) -> (k: TetriminoType)
        requires
            old(self).wf(),
        ensures
            final(self).wf(),
            old(self).draws(*final(self), k),
    {
        if self.idx == 7 {
            self.idx = 0;
            shuffle_kinds(&mut self.types, &mut self.rng);
        }
        let k = self.types[self.idx];
        self.idx = self.idx + 1;
        k
    }
}

/// Each kind occurs exactly once in a bag.
pub proof fn lemma_bag_counts(s: Seq<TetriminoType>)
    requires
        is_bag(s),
    ensures
        s.len() == 7,
        forall|k: TetriminoType| #[trigger] s.to_multiset().count(k) == 1,
{
    let all = all_kinds();
    assert(s.to_multiset().len() == s.len());
    assert(all.to_multiset().len() == 7);
    assert(all.no_duplicates());
    all.lemma_multiset_has_no_duplicates();
    assert forall|k: TetriminoType| #[trigger] s.to_multiset().count(k) == 1 by {
        let i: int = match k {
            TetriminoType::I => 0,
            TetriminoType::O => 1,
            TetriminoType::T => 2,
            TetriminoType::S => 3,
            TetriminoType::Z => 4,
            TetriminoType::J => 5,
            TetriminoType::L => 6,
        };
        assert(all[i] == k);
        assert(all.contains(k));
        assert(all.to_multiset().count(k) > 0);
    }
}

/// Seven draws in a row that start where a bag begins (a fresh generator, or
/// one whose bag is used up) hand out each of the seven kinds exactly once.
pub proof fn lemma_bag_window(gens: Seq<SevenGenerator>, kinds: Seq<TetriminoType>)
    requires
        gens.len() == 8,
        kinds.len() == 7,
        gens[0].wf(),
        gens[0].cursor() == 0 || gens[0].cursor() == 7,
        forall|i: int| 0 <= i < 7 ==> gens[i].draws(gens[i + 1], #[trigger] kinds[i]),
    ensures
        is_bag(kinds),
        forall|k: TetriminoType| #[trigger] kinds.to_multiset().count(k) == 1,
{
    assert(gens[0].draws(gens[1], kinds[0]));
    assert(gens[1].draws(gens[2], kinds[1]));
    assert(gens[2].draws(gens[3], kinds[2]));
    assert(gens[3].draws(gens[4], kinds[3]));
    assert(gens[4].draws(gens[5], kinds[4]));
    assert(gens[5].draws(gens[6], kinds[5]));
    assert(gens[6].draws(gens[7], kinds[6]));
    let bag = gens[1].bag();
    assert(kinds =~= bag);
    lemma_bag_counts(kinds);
}

} // verus!
