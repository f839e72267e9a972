use vstd::prelude::*;

verus! {

/// A rule that collects items and decides when they make a batch.
pub trait BatchStrategy<I>: Sized {
    /// The items added and not yet handed out, oldest first.
    spec fn pending(&self) -> Seq<I>;

    /// Whether the strategy hands out a batch unasked once `items` are
    /// pending.
    spec fn due_with(&self, items: Seq<I>) -> bool;

    /// Adds an item.
    fn add(&mut self, item: I)
        ensures
            final(self).pending() == old(self).pending().push(item),
            forall|items: Seq<I>| final(self).due_with(items) == old(self).due_with(items),
    ;

    /// Hands out the pending items as a batch where there are any and the
    /// batch is due or forced; otherwise returns `None` and keeps them.
    fn batch(&mut self, force: bool) -> (r: Option<Vec<I>>)
        ensures
            forall|items: Seq<I>| final(self).due_with(items) == old(self).due_with(items),
            match r {
                Some(items) => {
                    &&& old(self).pending().len() > 0
                    &&& force || old(self).due_with(old(self).pending())
                    &&& items@ == old(self).pending()
                    &&& final(self).pending() == Seq::<I>::empty()
                },
                None => {
                    &&& !(old(self).pending().len() > 0 && (force || old(self).due_with(
                        old(self).pending(),
                    )))
                    &&& final(self).pending() == old(self).pending()
                },
            },
    ;

    /// A strategy of the same kind with nothing pending.
    fn new_like(&self) -> (r: Self)
        ensures
            r.pending() == Seq::<I>::empty(),
            forall|items: Seq<I>| r.due_with(items) == self.due_with(items),
    ;
}

/// A strategy that makes batches of a fixed size.
pub struct FixBatchStrategy<I> {
    pub items: Vec<I>,
    pub batch_size: usize,
}

impl<I> FixBatchStrategy<I> {
    /// A strategy that hands out a batch once `batch_size` items are
    /// pending.
    pub fn new(batch_size: usize) -> (r: Self)
        ensures
            r.items@ == Seq::<I>::empty(),
            r.batch_size == batch_size,
    {
        FixBatchStrategy { items: Vec::new(), batch_size }
    }
}

impl<I> BatchStrategy<I> for FixBatchStrategy<I> {
    open spec fn pending(&self) -> Seq<I> {
        self.items@
    }

    open spec fn due_with(&self, items: Seq<I>) -> bool {
        items.len() >= self.batch_size
    }

    fn add(&mut self, item: I) {
        self.items.push(item);
    }

    fn batch(&mut self, force: bool) -> (r: Option<Vec<I>>) {
        if self.items.len() < self.batch_size && !force {
            return None;
        }
        if self.items.len() == 0 {
            return None;
        }
        let mut items: Vec<I> = Vec::new();
        std::mem::swap(&mut items, &mut self.items);
        Some(items)
    }

    fn new_like(&self) -> (r: Self) {
        FixBatchStrategy::new(self.batch_size)
    }
}

} // verus!
