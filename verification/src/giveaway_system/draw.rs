//! Drawing winners without replacement.

use rand::seq::IndexedRandom;
use vstd::prelude::*;
use vstd::set_lib::lemma_subset_equality;
use vstd::set_lib::lemma_len_subset;

verus! {

/// How many winners are drawn from `pool` entrants: the number asked for,
/// or everybody where the request is negative or exceeds the pool.
pub open spec fn draw_size(pool: nat, winner_count: i32) -> nat {
    if winner_count < 0 || winner_count >= pool {
        pool
    } else {
        winner_count as nat
    }
}

/// `places` names, for each item of `picked`, a place of `pool` that holds
/// it, and no place twice.
pub open spec fn places_of(pool: Seq<i64>, picked: Seq<i64>, places: Seq<int>) -> bool {
    &&& places.len() == picked.len()
    &&& places.no_duplicates()
    &&& forall|k: int|
        0 <= k < places.len() ==> 0 <= #[trigger] places[k] < pool.len() && pool[places[k]]
            == picked[k]
}

/// `picked` was taken from distinct places of `pool`.
pub open spec fn picked_from(pool: Seq<i64>, picked: Seq<i64>) -> bool {
    exists|places: Seq<int>| places_of(pool, picked, places)
}

/// Picks taken from distinct places of a pool without repeats are distinct
/// members of the pool, and as many picks as the pool has members are all
/// of them.
pub proof fn lemma_picks_are_distinct_members(pool: Seq<i64>, picked: Seq<i64>)
    requires
        pool.no_duplicates(),
        picked_from(pool, picked),
    ensures
        picked.no_duplicates(),
        picked.to_set().subset_of(pool.to_set()),
        picked.len() <= pool.len(),
        picked.len() == pool.len() ==> picked.to_set() == pool.to_set(),
{
    let places = choose|places: Seq<int>| places_of(pool, picked, places);
    assert forall|i: int, j: int|
        0 <= i < picked.len() && 0 <= j < picked.len() && i != j implies picked[i] != picked[j] by {
        assert(places[i] != places[j]);
        assert(pool[places[i]] == picked[i]);
        assert(pool[places[j]] == picked[j]);
    }
    assert forall|x: i64| picked.to_set().contains(x) implies pool.to_set().contains(x) by {
        let k = choose|k: int| 0 <= k < picked.len() && picked[k] == x;
        assert(pool[places[k]] == x);
    }
    picked.unique_seq_to_set();
    pool.unique_seq_to_set();
    vstd::seq_lib::seq_to_set_is_finite(picked);
    vstd::seq_lib::seq_to_set_is_finite(pool);
    lemma_len_subset(picked.to_set(), pool.to_set());
    if picked.len() == pool.len() {
        lemma_subset_equality(picked.to_set(), pool.to_set());
    }
}

/// Calls `choose_multiple` of rand's `IndexedRandom` on the pool, with the
/// thread's generator, and collects what it yields.
///
/// Trusted: the result has `amount` items, or as many as the pool where that
/// is fewer, and they come from distinct places of the pool. Which places,
/// and in what order, is left to chance. The generator panics only where
/// the operating system gives it no entropy.
#[verifier::external_body]
fn choose_multiple(pool: &Vec<i64>, amount: usize) -> (picked: Vec<i64>)
    ensures
        picked@.len() == if amount <= pool@.len() {
            amount as int
        } else {
            pool@.len() as int
        },
        picked_from(pool@, picked@),
{
    let mut rng = rand::rng();
    pool.choose_multiple(&mut rng, amount).cloned().collect()
}

/// The number of winners to draw from a pool of `pool` entrants.
pub fn winners_to_draw(pool: usize, winner_count: i32) -> (amount: usize)
    ensures
        amount == draw_size(pool as nat, winner_count),
{
    if winner_count < 0 {
        pool
    } else {
        let asked: u32 = winner_count as u32;
        if asked as u64 >= pool as u64 {
            pool
        } else {
            asked as usize
        }
    }
}

/// Draws the winners of a giveaway at random, without replacement.
///
/// Whatever the chance, the result has `draw_size` items and they come from
/// distinct places of the pool.
pub fn draw(pool: &Vec<i64>, winner_count: i32) -> (winners: Vec<i64>)
    ensures
        winners@.len() == draw_size(pool@.len(), winner_count),
        picked_from(pool@, winners@),
{
    let amount = winners_to_draw(pool.len(), winner_count);
    choose_multiple(pool, amount)
}

} // verus!
