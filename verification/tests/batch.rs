use std::collections::HashSet;

use burn_core::dataloader::batch::{BatchDataLoader, BatchDataloaderIterator, Progress};
use burn_core::dataloader::strategy::{BatchStrategy, FixBatchStrategy};
use burn_dataset::{Dataset, FakeDataset};
use rand::rngs::StdRng;
use rand::SeedableRng;

/// Hands the items back as they are.
struct TestBatcher;

impl TestBatcher {
    fn new() -> Self {
        TestBatcher
    }

    fn batch<I>(&self, items: Vec<I>) -> Vec<I> {
        items
    }
}

fn positions(len: usize) -> Vec<usize> {
    (0..len).collect()
}

/// The items at the positions of a batch.
fn fetch(dataset: &FakeDataset<String>, batch: Vec<usize>) -> Vec<String> {
    batch.into_iter().map(|position| dataset.get(position).unwrap()).collect()
}

fn all_batches(loader: &BatchDataLoader<FixBatchStrategy<usize>>) -> Vec<Vec<usize>> {
    let mut iterator = loader.iter();
    let mut out = Vec::new();
    while let Some(batch) = iterator.next() {
        out.push(batch);
    }
    out
}

#[test]
fn test_batch_dataloader() {
    let batcher = TestBatcher::new();
    let dataset = FakeDataset::<String>::new(27);
    let dataloader = BatchDataLoader::new(FixBatchStrategy::new(5), positions(dataset.len()), None);

    let mut items_dataset = HashSet::new();
    let mut items_dataloader = HashSet::new();

    for item in dataset.iter() {
        items_dataset.insert(item);
    }

    for items in all_batches(&dataloader) {
        for item in batcher.batch(fetch(&dataset, items)) {
            items_dataloader.insert(item);
        }
    }

    assert_eq!(items_dataset, items_dataloader);
}

#[test]
fn test_multi_thread_batch_dataloader() {
    let batcher = TestBatcher::new();
    let dataset = FakeDataset::<String>::new(27);
    let dataloader_single_thread =
        BatchDataLoader::new(FixBatchStrategy::new(5), positions(dataset.len()), None);
    let dataloader_multi_thread =
        BatchDataLoader::multi_thread(FixBatchStrategy::new(5), positions(dataset.len()), 4, None);

    let mut items_single_thread = HashSet::new();
    let mut items_multi_thread = HashSet::new();

    for items in all_batches(&dataloader_single_thread) {
        for item in batcher.batch(fetch(&dataset, items)) {
            items_single_thread.insert(item);
        }
    }

    for dataloader in dataloader_multi_thread.iter() {
        for items in all_batches(dataloader) {
            for item in batcher.batch(fetch(&dataset, items)) {
                items_multi_thread.insert(item);
            }
        }
    }

    assert_eq!(items_single_thread, items_multi_thread);
}

#[test]
fn batches_are_consecutive_runs_of_the_batch_size() {
    let dataloader = BatchDataLoader::new(FixBatchStrategy::new(5), positions(27), None);
    let batches = all_batches(&dataloader);
    assert_eq!(batches.len(), 6);
    assert_eq!(batches[0], vec![0, 1, 2, 3, 4]);
    assert_eq!(batches[1], vec![5, 6, 7, 8, 9]);
    assert_eq!(batches[4], vec![20, 21, 22, 23, 24]);
    assert_eq!(batches[5], vec![25, 26]);
    assert_eq!(dataloader.iter().batches(), batches);
}

#[test]
fn a_dataset_that_divides_evenly_has_no_short_batch() {
    let dataloader = BatchDataLoader::new(FixBatchStrategy::new(3), positions(6), None);
    assert_eq!(all_batches(&dataloader), vec![vec![0, 1, 2], vec![3, 4, 5]]);
}

#[test]
fn an_empty_dataset_has_no_batch() {
    let dataloader = BatchDataLoader::new(FixBatchStrategy::new(3), positions(0), None);
    let mut iterator = dataloader.iter();
    assert_eq!(iterator.next(), None);
    assert_eq!(iterator.next(), None);
    assert!(dataloader.iter().batches().is_empty());
}

#[test]
fn next_after_the_end_stays_none() {
    let mut iterator = BatchDataloaderIterator::new(FixBatchStrategy::new(2), vec![7, 8, 9]);
    assert_eq!(iterator.next(), Some(vec![7, 8]));
    assert_eq!(iterator.next(), Some(vec![9]));
    assert_eq!(iterator.next(), None);
    assert_eq!(iterator.next(), None);
    assert_eq!(iterator.current_index, 3);
}

#[test]
fn pending_items_come_first_in_the_next_batch() {
    let mut strategy = FixBatchStrategy::new(3);
    strategy.add(100);
    let mut iterator = BatchDataloaderIterator::new(strategy, vec![1, 2, 3, 4]);
    assert_eq!(iterator.next(), Some(vec![100, 1, 2]));
    assert_eq!(iterator.next(), Some(vec![3, 4]));
    assert_eq!(iterator.next(), None);
}

#[test]
fn pending_items_after_the_end_make_a_last_batch() {
    let mut strategy = FixBatchStrategy::new(3);
    strategy.add(100);
    let mut iterator = BatchDataloaderIterator::new(strategy, vec![]);
    assert_eq!(iterator.next(), Some(vec![100]));
    assert_eq!(iterator.next(), None);
}

#[test]
fn a_batch_size_of_zero_gives_batches_of_one() {
    let mut iterator = BatchDataloaderIterator::new(FixBatchStrategy::new(0), vec![4, 5]);
    assert_eq!(iterator.batches(), vec![vec![4], vec![5]]);
}

#[test]
fn progress_counts_the_items_taken() {
    let mut iterator = BatchDataloaderIterator::new(FixBatchStrategy::new(5), positions(12));
    assert_eq!(iterator.progress(), Progress { items_processed: 0, items_total: 12 });
    iterator.next();
    assert_eq!(iterator.progress(), Progress { items_processed: 5, items_total: 12 });
    iterator.next();
    iterator.next();
    assert_eq!(iterator.progress(), Progress { items_processed: 12, items_total: 12 });
    iterator.next();
    assert_eq!(iterator.progress(), Progress { items_processed: 12, items_total: 12 });
}

#[test]
fn fix_batch_strategy_hands_out_full_or_forced_batches() {
    let mut strategy = FixBatchStrategy::new(2);
    assert_eq!(strategy.batch(false), None);
    assert_eq!(strategy.batch(true), None);
    strategy.add(1);
    assert_eq!(strategy.batch(false), None);
    strategy.add(2);
    assert_eq!(strategy.batch(false), Some(vec![1, 2]));
    assert_eq!(strategy.batch(false), None);
    strategy.add(3);
    assert_eq!(strategy.batch(true), Some(vec![3]));
    assert_eq!(strategy.batch(true), None);
    strategy.add(4);
    let like = strategy.new_like();
    assert_eq!(like.batch_size, 2);
    assert!(like.items.is_empty());
    assert_eq!(strategy.items, vec![4]);
}

#[test]
fn multi_thread_splits_into_consecutive_parts() {
    let loaders = BatchDataLoader::multi_thread(FixBatchStrategy::new(5), positions(27), 4, None);
    assert_eq!(loaders.len(), 4);
    assert_eq!(loaders[0].dataset, vec![0, 1, 2, 3, 4, 5]);
    assert_eq!(loaders[1].dataset, vec![6, 7, 8, 9, 10, 11]);
    assert_eq!(loaders[2].dataset, vec![12, 13, 14, 15, 16, 17]);
    assert_eq!(loaders[3].dataset, vec![18, 19, 20, 21, 22, 23, 24, 25, 26]);
    for loader in loaders.iter() {
        assert!(loader.rng.is_none());
        assert_eq!(loader.strategy.batch_size, 5);
        assert!(loader.strategy.items.is_empty());
    }
    assert_eq!(all_batches(&loaders[3]), vec![vec![18, 19, 20, 21, 22], vec![23, 24, 25, 26]]);
}

#[test]
fn multi_thread_with_more_threads_than_items() {
    let loaders = BatchDataLoader::multi_thread(FixBatchStrategy::new(2), vec![10, 11, 12], 5, None);
    assert_eq!(loaders.len(), 5);
    for k in 0..4 {
        assert!(loaders[k].dataset.is_empty());
    }
    assert_eq!(loaders[4].dataset, vec![10, 11, 12]);
}

#[test]
fn multi_thread_gives_each_loader_a_generator_of_its_own() {
    let rng = StdRng::seed_from_u64(42);
    let loaders = BatchDataLoader::multi_thread(FixBatchStrategy::new(4), positions(40), 2, Some(rng));
    assert_eq!(loaders.len(), 2);
    assert!(loaders.iter().all(|loader| loader.rng.is_some()));
    let first: Vec<usize> = loaders[0].iter().batches().concat();
    let second: Vec<usize> = loaders[1].iter().batches().concat();
    let mut sorted = first.clone();
    sorted.sort();
    assert_eq!(sorted, (0..20).collect::<Vec<usize>>());
    let mut sorted = second.clone();
    sorted.sort();
    assert_eq!(sorted, (20..40).collect::<Vec<usize>>());
    // the two generators were seeded apart
    let shifted: Vec<usize> = second.iter().map(|p| p - 20).collect();
    assert_ne!(first, shifted);
}

#[test]
fn a_seed_shuffles_the_dataset() {
    let dataloader = BatchDataLoader::new(FixBatchStrategy::new(7), positions(50), None);
    let plain: Vec<usize> = dataloader.iter_with(None).batches().concat();
    assert_eq!(plain, positions(50));
    let shuffled: Vec<usize> = dataloader.iter_with(Some(42)).batches().concat();
    assert_ne!(shuffled, plain);
    let mut sorted = shuffled.clone();
    sorted.sort();
    assert_eq!(sorted, plain);
    // the same seed gives the same order, another seed another one
    let again: Vec<usize> = dataloader.iter_with(Some(42)).batches().concat();
    assert_eq!(again, shuffled);
    let other: Vec<usize> = dataloader.iter_with(Some(43)).batches().concat();
    assert_ne!(other, shuffled);
    // the loader's own dataset is left as it was
    assert_eq!(dataloader.dataset, plain);
}

#[test]
fn a_seed_shuffles_as_the_shuffled_dataset_does() {
    let items: Vec<usize> = vec![30, 10, 20, 50, 40, 60, 90, 80, 70];
    let dataloader = BatchDataLoader::new(FixBatchStrategy::new(4), items.clone(), None);
    let walked: Vec<usize> = dataloader.iter_with(Some(7)).batches().concat();
    let shuffled = burn_dataset::transform::ShuffledDataset::with_seed(
        burn_dataset::InMemDataset::new(items),
        7,
    );
    let expected: Vec<usize> = shuffled.iter().collect();
    assert_eq!(walked, expected);
}

#[test]
fn a_loader_with_a_generator_shuffles_anew_each_time() {
    let rng = StdRng::seed_from_u64(1);
    let dataloader = BatchDataLoader::new(FixBatchStrategy::new(10), positions(100), Some(rng));
    let first: Vec<usize> = dataloader.iter().batches().concat();
    let second: Vec<usize> = dataloader.iter().batches().concat();
    assert_ne!(first, positions(100));
    assert_ne!(first, second);
    let mut sorted = first.clone();
    sorted.sort();
    assert_eq!(sorted, positions(100));
    let mut sorted = second.clone();
    sorted.sort();
    assert_eq!(sorted, positions(100));
    // a loader that starts from the same seed walks the same orders
    let twin = BatchDataLoader::new(FixBatchStrategy::new(10), positions(100), Some(StdRng::seed_from_u64(1)));
    let twin_first: Vec<usize> = twin.iter().batches().concat();
    assert_eq!(twin_first, first);
}
