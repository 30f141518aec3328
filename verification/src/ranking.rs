//! Ranking the scored candidates of a generation and choosing the parents
//! of the next.
//!
//! A ranking lists the candidates by falling score. Candidates of equal
//! score keep the order in which they were bred, so the ranking of a pool is
//! unique.

use vstd::prelude::*;
use vstd::set_lib::{lemma_int_range, lemma_subset_equality, set_int_range};
use crate::traits::Phenotype;

verus! {

/// A candidate together with the score it was given.
#[derive(Debug)]
pub struct EvolutionResult<Pheno: Phenotype> {
    pub winner: Pheno,
    pub score: i64,
}

impl<Pheno: Phenotype> Clone for EvolutionResult<Pheno> {
    fn clone(&self) -> (cloned: Self)
        ensures
            cloned == *self,
    {
        EvolutionResult { winner: self.winner, score: self.score }
    }
}

impl<Pheno: Phenotype> Copy for EvolutionResult<Pheno> {

}

/// Whether entry `a` of `pool` stands before entry `b` in the ranking: it
/// has the higher score, or the same score and the earlier place.
pub open spec fn ranks_before<Pheno: Phenotype>(
    pool: Seq<EvolutionResult<Pheno>>,
    a: int,
    b: int,
) -> bool {
    pool[a].score > pool[b].score || (pool[a].score == pool[b].score && a < b)
}

/// Whether `order` lists places of `pool`, one for each entry, so that each
/// ranks before all that follow it.
pub open spec fn is_ranking_order<Pheno: Phenotype>(
    pool: Seq<EvolutionResult<Pheno>>,
    order: Seq<int>,
) -> bool {
    &&& order.len() == pool.len()
    &&& forall|k: int| 0 <= k < order.len() ==> 0 <= #[trigger] order[k] < pool.len()
    &&& forall|k: int, l: int|
        0 <= k < l < order.len() ==> ranks_before(pool, #[trigger] order[k], #[trigger] order[l])
}

/// Whether `ranked` holds the entries of `pool` in the places that `order`
/// names.
pub open spec fn is_ranking_by<Pheno: Phenotype>(
    pool: Seq<EvolutionResult<Pheno>>,
    ranked: Seq<EvolutionResult<Pheno>>,
    order: Seq<int>,
) -> bool {
    &&& is_ranking_order(pool, order)
    &&& ranked.len() == pool.len()
    &&& forall|k: int| 0 <= k < ranked.len() ==> #[trigger] ranked[k] == pool[order[k]]
}

/// Whether `ranked` is the ranking of `pool`: the same entries, by falling
/// score, those of equal score in the order they have in `pool`.
pub open spec fn is_ranking<Pheno: Phenotype>(
    pool: Seq<EvolutionResult<Pheno>>,
    ranked: Seq<EvolutionResult<Pheno>>,
) -> bool {
    exists|order: Seq<int>| is_ranking_by(pool, ranked, order)
}

/// Every place of the pool occurs in a ranking order.
pub proof fn lemma_order_covers<Pheno: Phenotype>(
    pool: Seq<EvolutionResult<Pheno>>,
    order: Seq<int>,
    place: int,
)
    requires
        is_ranking_order(pool, order),
        0 <= place < pool.len(),
    ensures
        exists|k: int| 0 <= k < order.len() && order[k] == place,
{
    let places = set_int_range(0, pool.len() as int);
    order.unique_seq_to_set();
    lemma_int_range(0, pool.len() as int);
    lemma_subset_equality(order.to_set(), places);
    assert(order.to_set().contains(place));
}

/// A ranking keeps every entry of the pool, and holds nothing else.
pub proof fn lemma_ranking_keeps_entries<Pheno: Phenotype>(
    pool: Seq<EvolutionResult<Pheno>>,
    ranked: Seq<EvolutionResult<Pheno>>,
)
    requires
        is_ranking(pool, ranked),
    ensures
        ranked.len() == pool.len(),
        forall|j: int| 0 <= j < pool.len() ==> ranked.contains(#[trigger] pool[j]),
        forall|k: int| 0 <= k < ranked.len() ==> pool.contains(#[trigger] ranked[k]),
{
    let order = choose|order: Seq<int>| is_ranking_by(pool, ranked, order);
    assert forall|j: int| 0 <= j < pool.len() implies ranked.contains(#[trigger] pool[j]) by {
        lemma_order_covers(pool, order, j);
        let k = choose|k: int| 0 <= k < order.len() && order[k] == j;
        assert(ranked[k] == pool[j]);
    }
}

/// Scores never rise along a ranking.
pub proof fn lemma_ranking_is_sorted<Pheno: Phenotype>(
    pool: Seq<EvolutionResult<Pheno>>,
    ranked: Seq<EvolutionResult<Pheno>>,
)
    requires
        is_ranking(pool, ranked),
    ensures
        forall|k: int, l: int|
            0 <= k <= l < ranked.len() ==> (#[trigger] ranked[k]).score >= (
            #[trigger] ranked[l]).score,
{
}

/// The first entry of a ranking has the highest score of the pool.
pub proof fn lemma_ranking_best_first<Pheno: Phenotype>(
    pool: Seq<EvolutionResult<Pheno>>,
    ranked: Seq<EvolutionResult<Pheno>>,
)
    requires
        is_ranking(pool, ranked),
        pool.len() > 0,
    ensures
        forall|j: int| 0 <= j < pool.len() ==> (#[trigger] pool[j]).score <= ranked[0].score,
{
    let order = choose|order: Seq<int>| is_ranking_by(pool, ranked, order);
    assert forall|j: int| 0 <= j < pool.len() implies (#[trigger] pool[j]).score
        <= ranked[0].score by {
        lemma_order_covers(pool, order, j);
    }
}

/// A pool has one ranking order only.
proof fn lemma_order_is_unique<Pheno: Phenotype>(
    pool: Seq<EvolutionResult<Pheno>>,
    first: Seq<int>,
    second: Seq<int>,
)
    requires
        is_ranking_order(pool, first),
        is_ranking_order(pool, second),
    ensures
        first == second,
{
    assert forall|k: int| 0 <= k < first.len() implies first[k] == second[k] by {
        lemma_orders_agree_up_to(pool, first, second, k);
    }
}

/// Two ranking orders of a pool agree at every place up to `k`.
proof fn lemma_orders_agree_up_to<Pheno: Phenotype>(
    pool: Seq<EvolutionResult<Pheno>>,
    first: Seq<int>,
    second: Seq<int>,
    k: int,
)
    requires
        is_ranking_order(pool, first),
        is_ranking_order(pool, second),
        0 <= k < first.len(),
    ensures
        forall|i: int| 0 <= i <= k ==> first[i] == second[i],
    decreases k,
{
    if k > 0 {
        lemma_orders_agree_up_to(pool, first, second, k - 1);
    }
    // Each order holds the place that the other has at `k`, and neither can
    // hold it before `k` or behind `k`.
    lemma_order_covers(pool, second, first[k]);
    lemma_order_covers(pool, first, second[k]);
}

/// A pool has one ranking only: whatever meets `is_ranking` is the same
/// sequence.
pub proof fn lemma_ranking_is_unique<Pheno: Phenotype>(
    pool: Seq<EvolutionResult<Pheno>>,
    first: Seq<EvolutionResult<Pheno>>,
    second: Seq<EvolutionResult<Pheno>>,
)
    requires
        is_ranking(pool, first),
        is_ranking(pool, second),
    ensures
        first == second,
{
    let first_order = choose|order: Seq<int>| is_ranking_by(pool, first, order);
    let second_order = choose|order: Seq<int>| is_ranking_by(pool, second, order);
    lemma_order_is_unique(pool, first_order, second_order);
}

/// Ranks the scored candidates of `fitness`: highest score first, equal
/// scores in the order in which they stand in `fitness`.
pub fn rank<Pheno: Phenotype>(fitness: &Vec<EvolutionResult<Pheno>>) -> (ranked: Vec<
    EvolutionResult<Pheno>,
>)
    ensures
        is_ranking(fitness@, ranked@),
{
    let mut ranked: Vec<EvolutionResult<Pheno>> = Vec::new();
    let ghost mut order: Seq<int> = Seq::empty();
    let mut next: usize = 0;
    while next < fitness.len()
        invariant
            next <= fitness@.len(),
            ranked@.len() == next,
            order.len() == next,
            forall|k: int| 0 <= k < next ==> 0 <= #[trigger] order[k] < next,
            forall|k: int| 0 <= k < next ==> #[trigger] ranked@[k] == fitness@[order[k]],
            forall|k: int, l: int|
                0 <= k < l < next ==> ranks_before(
                    fitness@,
                    #[trigger] order[k],
                    #[trigger] order[l],
                ),
        decreases fitness@.len() - next,
    {
        let entry = fitness[next];
        let mut slot: usize = 0;
        while slot < ranked.len() && ranked[slot].score >= entry.score
            invariant
                slot <= ranked@.len(),
                forall|k: int| 0 <= k < slot ==> (#[trigger] ranked@[k]).score >= entry.score,
            decreases ranked@.len() - slot,
        {
            slot += 1;
        }
        let ghost before = ranked@;
        let ghost order_before = order;
        ranked.insert(slot, entry);
        proof {
            order = order_before.insert(slot as int, next as int);
            assert forall|k: int, l: int| 0 <= k < l < next + 1 implies ranks_before(
                fitness@,
                #[trigger] order[k],
                #[trigger] order[l],
            ) by {
                if l == slot {
                    // What stands before the slot scores no lower than the entry.
                    assert(before[k].score >= entry.score);
                } else if k == slot && l > slot + 1 {
                    // What stands behind the slot ranks behind what stood at the slot.
                    assert(ranks_before(
                        fitness@,
                        order_before[slot as int],
                        order_before[l - 1],
                    ));
                }
            }
        }
        next += 1;
    }
    proof {
        assert(is_ranking_by(fitness@, ranked@, order));
    }
    ranked
}

/// How many parents are taken from `ranked` candidates when `num_parents`
/// are asked for: that many, or all there are.
pub open spec fn parent_count(ranked: nat, num_parents: nat) -> nat {
    if num_parents <= ranked {
        num_parents
    } else {
        ranked
    }
}

/// The candidates of the first `num_parents` entries of `ranked`, or of all
/// entries where there are fewer.
pub open spec fn top_parents<Pheno: Phenotype>(
    ranked: Seq<EvolutionResult<Pheno>>,
    num_parents: nat,
) -> Seq<Pheno> {
    Seq::new(parent_count(ranked.len(), num_parents), |k: int| ranked[k].winner)
}

/// The parents of the next generation: the candidates of the first
/// `num_parents` entries of `ranked`, or of all entries where there are
/// fewer.
pub fn select_parents<Pheno: Phenotype>(
    ranked: &Vec<EvolutionResult<Pheno>>,
    num_parents: usize,
) -> (parents: Vec<Pheno>)
    ensures
        parents@ == top_parents(ranked@, num_parents as nat),
{
    let mut parents: Vec<Pheno> = Vec::new();
    let mut taken: usize = 0;
    while taken < num_parents && taken < ranked.len()
        invariant
            taken <= num_parents,
            taken <= ranked@.len(),
            parents@.len() == taken,
            forall|k: int| 0 <= k < taken ==> #[trigger] parents@[k] == ranked@[k].winner,
        decreases ranked@.len() - taken,
    {
        parents.push(ranked[taken].winner);
        taken += 1;
    }
    parents
}

} // verus!
