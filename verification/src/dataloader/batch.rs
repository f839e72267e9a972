use vstd::prelude::*;
use crate::dataloader::outside::{
    lock_around, next_seed, next_seed_locked, part_end, part_start, rng_from_seed, shuffle_order,
    shuffled, split_order,
};
use crate::dataloader::strategy::BatchStrategy;

verus! {

/// How far an iterator has come.
#[derive(Clone, Copy, Debug, PartialEq, Eq, Structural)]
pub struct Progress {
    /// The number of items taken from the dataset.
    pub items_processed: usize,
    /// The number of items of the dataset.
    pub items_total: usize,
}

/// A data loader that walks a dataset in batches.
///
/// The dataset is the sequence of the positions of its items. A loader
/// with a random number generator walks it in a new shuffled order each
/// time.
pub struct BatchDataLoader<S> {
    pub strategy: S,
    pub dataset: Vec<usize>,
    pub rng: Option<spin::Mutex<rand::rngs::StdRng>>,
}

/// One walk over the dataset of a data loader.
pub struct BatchDataloaderIterator<S> {
    /// The number of items taken from the dataset.
    pub current_index: usize,
    pub strategy: S,
    pub dataset: Vec<usize>,
}

/// The items of `order` from position `from` up to `to`; none where the
/// positions are not in this order within the dataset.
pub open spec fn taken(order: Seq<usize>, from: int, to: int) -> Seq<usize> {
    if 0 <= from <= to <= order.len() {
        order.subrange(from, to)
    } else {
        Seq::empty()
    }
}

/// The items of the batches, one batch after the other.
pub open spec fn concat(batches: Seq<Vec<usize>>) -> Seq<usize>
    decreases batches.len(),
{
    if batches.len() == 0 {
        Seq::empty()
    } else {
        concat(batches.drop_last()) + batches.last()@
    }
}

impl<S: BatchStrategy<usize>> BatchDataLoader<S> {
    /// A data loader over the dataset. With a generator, each iterator
    /// walks the dataset in a shuffled order of its own.
    pub fn new(strategy: S, dataset: Vec<usize>, rng: Option<rand::rngs::StdRng>) -> (r: Self)
        ensures
            r.strategy == strategy,
            r.dataset == dataset,
            r.rng is Some == rng is Some,
    {
        let rng = match rng {
            Some(rng) => Some(lock_around(rng)),
            None => None,
        };
        BatchDataLoader { strategy, dataset, rng }
    }

    /// One data loader for each of `num_threads` workers. The dataset is
    /// split into consecutive parts of equal length, the last one taking
    /// what is left over; each loader has a strategy like `strategy` and,
    /// where a generator is given, a generator of its own that is seeded
    /// from it.
    pub fn multi_thread(strategy: S, dataset: Vec<usize>, num_threads: usize, rng: Option<
        rand::rngs::StdRng,
    >) -> (r: Vec<BatchDataLoader<S>>)
        requires
            num_threads > 0,
        ensures
            r.len() == num_threads,
            forall|k: int|
                0 <= k < num_threads ==> {
                    &&& (#[trigger] r[k]).dataset@ == dataset@.subrange(
                        part_start(dataset@.len(), num_threads as nat, k as nat) as int,
                        part_end(dataset@.len(), num_threads as nat, k as nat) as int,
                    )
                    &&& r[k].strategy.pending() == Seq::<usize>::empty()
                    &&& forall|items: Seq<usize>|
                        r[k].strategy.due_with(items) == strategy.due_with(items)
                    &&& r[k].rng is Some == rng is Some
                },
    {
        let mut rng = rng;
        let ghost seeded = rng is Some;
        let mut datasets = split_order(&dataset, num_threads);
        let ghost parts = datasets@;
        let mut reversed: Vec<Vec<usize>> = Vec::new();
        while datasets.len() > 0
            invariant
                parts.len() == num_threads,
                datasets.len() + reversed.len() == num_threads,
                datasets@ == parts.take(datasets.len() as int),
                forall|i: int|
                    0 <= i < reversed.len() ==> #[trigger] reversed[i] == parts[num_threads - 1 - i],
            decreases datasets.len(),
        {
            let part = datasets.pop().unwrap();
            reversed.push(part);
        }
        let mut dataloaders: Vec<BatchDataLoader<S>> = Vec::new();
        while reversed.len() > 0
            invariant
                seeded == rng is Some,
                parts.len() == num_threads,
                dataloaders.len() + reversed.len() == num_threads,
                forall|i: int|
                    0 <= i < reversed.len() ==> #[trigger] reversed[i] == parts[num_threads - 1 - i],
                forall|k: int|
                    0 <= k < dataloaders.len() ==> {
                        &&& (#[trigger] dataloaders[k]).dataset == parts[k]
                        &&& dataloaders[k].strategy.pending() == Seq::<usize>::empty()
                        &&& forall|items: Seq<usize>|
                            dataloaders[k].strategy.due_with(items) == strategy.due_with(items)
                        &&& dataloaders[k].rng is Some == seeded
                    },
            decreases reversed.len(),
        {
            let part = reversed.pop().unwrap();
            let own = match &mut rng {
                Some(rng) => Some(rng_from_seed(next_seed(rng))),
                None => None,
            };
            let dataloader = BatchDataLoader::new(strategy.new_like(), part, own);
            dataloaders.push(dataloader);
        }
        dataloaders
    }

    /// An iterator that walks the dataset in the order that `seed` gives: the
    /// dataset's own order without a seed, and the shuffled one with it.
    pub fn iter_with(&self, seed: Option<u64>) -> (r: BatchDataloaderIterator<S>)
        ensures
            r.current_index == 0,
            r.dataset@ == (match seed {
                Some(s) => shuffled(self.dataset@, s),
                None => self.dataset@,
            }),
            r.dataset@.len() == self.dataset@.len(),
            r.dataset@.to_multiset() == self.dataset@.to_multiset(),
            r.strategy.pending() == Seq::<usize>::empty(),
            forall|items: Seq<usize>| r.strategy.due_with(items) == self.strategy.due_with(items),
    {
        let dataset = match seed {
            Some(s) => shuffle_order(&self.dataset, s),
            None => self.dataset.clone(),
        };
        BatchDataloaderIterator::new(self.strategy.new_like(), dataset)
    }

    /// A new iterator. A loader with a generator draws a seed from it, which
    /// moves the generator on, and walks the dataset in the order that the
    /// seed gives; a loader without one walks it as it is.
    pub fn iter(&self) -> (r: BatchDataloaderIterator<S>)
        ensures
            r.current_index == 0,
            match self.rng {
                Some(_) => exists|seed: u64| r.dataset@ == shuffled(self.dataset@, seed),
                None => r.dataset@ == self.dataset@,
            },
            r.dataset@.len() == self.dataset@.len(),
            r.dataset@.to_multiset() == self.dataset@.to_multiset(),
            r.strategy.pending() == Seq::<usize>::empty(),
            forall|items: Seq<usize>| r.strategy.due_with(items) == self.strategy.due_with(items),
    {
        let seed = match &self.rng {
            Some(rng) => Some(next_seed_locked(rng)),
            None => None,
        };
        self.iter_with(seed)
    }
}

impl<S: BatchStrategy<usize>> BatchDataloaderIterator<S> {
    /// An iterator at the start of the dataset.
    pub fn new(strategy: S, dataset: Vec<usize>) -> (r: Self)
        ensures
            r.current_index == 0,
            r.strategy == strategy,
            r.dataset == dataset,
    {
        BatchDataloaderIterator { current_index: 0, strategy, dataset }
    }

    /// The next batch, or `None` at the end.
    ///
    /// Items are taken from the dataset and added to the strategy until it
    /// hands out a batch unasked. At the end of the dataset the items that
    /// are still pending make a last batch.
    pub fn next(&mut self) -> (r: Option<Vec<usize>>)
        ensures
            final(self).dataset == old(self).dataset,
            forall|items: Seq<usize>|
                final(self).strategy.due_with(items) == old(self).strategy.due_with(items),
            final(self).strategy.pending() == Seq::<usize>::empty(),
            ({
                let from = old(self).current_index as int;
                let to = final(self).current_index as int;
                let len = old(self).dataset.len() as int;
                let order = old(self).dataset@;
                let held = old(self).strategy.pending();
                &&& from <= to
                &&& from < len ==> from < to <= len
                &&& from >= len ==> to == from
                &&& forall|k: int|
                    from < k < to ==> !old(self).strategy.due_with(
                        held + #[trigger] taken(order, from, k),
                    )
                &&& match r {
                    Some(batch) => {
                        &&& batch@ == held + taken(order, from, to)
                        &&& batch@.len() > 0
                        &&& (from < to && old(self).strategy.due_with(batch@)) || to >= len
                    },
                    None => from >= len && held.len() == 0,
                }
            }),
    {
        let ghost from = self.current_index as int;
        let ghost start = self.strategy.pending();
        proof {
            assert(start + taken(self.dataset@, from, from) =~= start);
        }
        while self.current_index < self.dataset.len()
            invariant
                self.dataset == old(self).dataset,
                forall|items: Seq<usize>|
                    self.strategy.due_with(items) == old(self).strategy.due_with(items),
                from == old(self).current_index,
                start == old(self).strategy.pending(),
                from <= self.current_index,
                from < self.dataset.len() ==> self.current_index <= self.dataset.len(),
                from >= self.dataset.len() ==> self.current_index == from,
                self.strategy.pending() == start + taken(
                    self.dataset@,
                    from,
                    self.current_index as int,
                ),
                forall|k: int|
                    from < k <= self.current_index ==> !old(self).strategy.due_with(
                        start + #[trigger] taken(self.dataset@, from, k),
                    ),
            decreases self.dataset.len() - self.current_index,
        {
            let item = self.dataset[self.current_index];
            let ghost before = self.current_index as int;
            self.current_index = self.current_index + 1;
            self.strategy.add(item);
            proof {
                assert(taken(self.dataset@, from, before + 1) =~= taken(
                    self.dataset@,
                    from,
                    before,
                ).push(item));
                assert(self.strategy.pending() =~= start + taken(self.dataset@, from, before + 1));
            }
            match self.strategy.batch(false) {
                Some(items) => {
                    return Some(items);
                },
                None => {},
            }
        }
        self.strategy.batch(true)
    }

    /// How far the iterator has come.
    pub fn progress(&self) -> (r: Progress)
        ensures
            r.items_processed == self.current_index,
            r.items_total == self.dataset.len(),
    {
        Progress { items_processed: self.current_index, items_total: self.dataset.len() }
    }

    /// All the batches that are left, in order. Together they hold the
    /// items that were pending and then every item of the rest of the
    /// dataset, each once and in order.
    pub fn batches(&mut self) -> (r: Vec<Vec<usize>>)
        ensures
            final(self).dataset == old(self).dataset,
            final(self).current_index >= old(self).dataset.len(),
            final(self).strategy.pending() == Seq::<usize>::empty(),
            concat(r@) == old(self).strategy.pending() + taken(
                old(self).dataset@,
                old(self).current_index as int,
                old(self).dataset.len() as int,
            ),
            forall|i: int| 0 <= i < r.len() ==> (#[trigger] r[i]).len() > 0,
    {
        let mut out: Vec<Vec<usize>> = Vec::new();
        let ghost from = self.current_index as int;
        let ghost start = self.strategy.pending();
        let ghost len = self.dataset.len() as int;
        proof {
            assert(concat(out@) =~= Seq::<usize>::empty());
            assert(start + taken(self.dataset@, from, from) =~= start);
        }
        loop
            invariant
                self.dataset == old(self).dataset,
                len == self.dataset.len(),
                from == old(self).current_index,
                start == old(self).strategy.pending(),
                from <= self.current_index,
                from < len ==> self.current_index <= len,
                from >= len ==> self.current_index == from,
                forall|i: int| 0 <= i < out.len() ==> (#[trigger] out[i]).len() > 0,
                concat(out@) + self.strategy.pending() == start + taken(
                    self.dataset@,
                    from,
                    self.current_index as int,
                ),
            decreases
                    (if self.current_index < len {
                        len - self.current_index
                    } else {
                        0
                    }),
                    self.strategy.pending().len(),
        {
            let ghost before = self.current_index as int;
            let ghost held = self.strategy.pending();
            let ghost done = concat(out@);
            match self.next() {
                Some(batch) => {
                    proof {
                        let to = self.current_index as int;
                        let order = self.dataset@;
                        let fresh = taken(order, before, to);
                        assert(batch@ == held + fresh);
                        assert(taken(order, from, to) =~= taken(order, from, before) + fresh);
                        assert(done + (held + fresh) =~= (done + held) + fresh);
                        assert((start + taken(order, from, before)) + fresh =~= start + (taken(
                            order,
                            from,
                            before,
                        ) + fresh));
                        assert(out@.push(batch).drop_last() =~= out@);
                        assert(concat(out@.push(batch)) == done + batch@);
                        assert(done + batch@ + Seq::<usize>::empty() =~= done + batch@);
                    }
                    out.push(batch);
                },
                None => {
                    proof {
                        assert(held =~= Seq::<usize>::empty());
                        assert(done =~= done + held);
                        assert(taken(self.dataset@, from, len) =~= taken(
                            self.dataset@,
                            from,
                            before,
                        ));
                    }
                    return out;
                },
            }
        }
    }
}

} // verus!
