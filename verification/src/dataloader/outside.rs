use vstd::prelude::*;
use burn_dataset::Dataset;

verus! {

/// `rand::rngs::StdRng`, the random number generator: carried through,
/// nothing is known of its state.
#[verifier::external_type_specification]
#[verifier::external_body]
pub struct ExStdRng(rand::rngs::StdRng);

/// `spin::relax::Spin`, the way in which a `spin::Mutex` waits: it only
/// occurs as a parameter of the lock's type.
#[verifier::external_type_specification]
#[verifier::external_body]
pub struct ExSpin(spin::relax::Spin);

/// `spin::mutex::Mutex`, the lock around the generator: carried through,
/// nothing is known of what it guards.
#[verifier::external_type_specification]
#[verifier::external_body]
#[verifier::reject_recursive_types(T)]
#[verifier::reject_recursive_types(R)]
pub struct ExMutex<T: ?Sized, R>(spin::mutex::Mutex<T, R>);

/// The items of `order` in the order in which a dataset that holds them,
/// shuffled with `seed`, hands them out. The order depends on the number of
/// items and the seed alone, for the `rand` that the crate is built with.
pub uninterp spec fn shuffled(order: Seq<usize>, seed: u64) -> Seq<usize>;

/// The first position of part `k` where `len` items are split into `num`
/// parts.
pub open spec fn part_start(len: nat, num: nat, k: nat) -> nat {
    k * (len / num)
}

/// The position after the last one of part `k`: the last part takes what
/// the division leaves over.
pub open spec fn part_end(len: nat, num: nat, k: nat) -> nat {
    if k + 1 == num {
        len
    } else {
        (k + 1) * (len / num)
    }
}

/// `burn_dataset::transform::ShuffledDataset::with_seed`, applied to a
/// dataset that holds `order` and read out from the first item to the last.
/// The crate fills a vector with the positions of the dataset, shuffles it
/// with a `StdRng` seeded with `seed`, and hands out the item at the
/// shuffled position: so each item comes out as often as it went in, and
/// the same items and seed give the same order.
#[verifier::external_body]
pub(crate) fn shuffle_order(order: &Vec<usize>, seed: u64) -> (r: Vec<usize>)
    ensures
        r@ == shuffled(order@, seed),
        r@.len() == order@.len(),
        r@.to_multiset() == order@.to_multiset(),
{
    let dataset = burn_dataset::InMemDataset::new(order.clone());
    burn_dataset::transform::ShuffledDataset::with_seed(dataset, seed).iter().collect()
}

/// `burn_dataset::transform::PartialDataset::split`, applied to a dataset
/// that holds `order`, each part read out from its first item to its last.
/// The crate makes `num` parts of `len / num` consecutive items each, in
/// order, and lets the last part run to the end of the dataset. It divides
/// by `num`.
#[verifier::external_body]
pub(crate) fn split_order(order: &Vec<usize>, num: usize) -> (r: Vec<Vec<usize>>)
    requires
        num > 0,
    ensures
        r.len() == num,
        forall|k: int|
            0 <= k < num ==> (#[trigger] r[k])@ == order@.subrange(
                part_start(order@.len(), num as nat, k as nat) as int,
                part_end(order@.len(), num as nat, k as nat) as int,
            ),
{
    let dataset = burn_dataset::InMemDataset::new(order.clone());
    burn_dataset::transform::PartialDataset::split(dataset, num)
        .iter()
        .map(|part| part.iter().collect())
        .collect()
}

/// `rand::SeedableRng::seed_from_u64` for `StdRng`: a generator that starts
/// from the seed.
#[verifier::external_body]
pub(crate) fn rng_from_seed(seed: u64) -> (r: rand::rngs::StdRng) {
    rand::SeedableRng::seed_from_u64(seed)
}

/// `rand::Rng::sample` with the `Standard` distribution: the next 64 bits of
/// the generator, which moves on.
#[verifier::external_body]
pub(crate) fn next_seed(rng: &mut rand::rngs::StdRng) -> (r: u64) {
    rand::Rng::sample(rng, rand::distributions::Standard)
}

/// `spin::Mutex::new`: a lock around the generator.
#[verifier::external_body]
pub(crate) fn lock_around(rng: rand::rngs::StdRng) -> (r: spin::Mutex<rand::rngs::StdRng>) {
    spin::Mutex::new(rng)
}

/// `spin::Mutex::lock`, then `rand::Rng::sample` with the `Standard`
/// distribution on the generator behind the lock, which moves on.
#[verifier::external_body]
pub(crate) fn next_seed_locked(rng: &spin::Mutex<rand::rngs::StdRng>) -> (r: u64) {
    let mut rng = rng.lock();
    rand::Rng::sample(&mut *rng, rand::distributions::Standard)
}

} // verus!
