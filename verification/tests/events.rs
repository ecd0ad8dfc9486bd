use garjan::events::{place_event, EventBlocks};

fn all_blocks(num_samples: usize, block_size: usize) -> Vec<(usize, usize)> {
    let mut walk = EventBlocks::new(num_samples, block_size);
    let mut out = Vec::new();
    while let Some(b) = walk.next_block() {
        out.push(b);
    }
    // Once over, the walk stays over.
    assert_eq!(walk.next_block(), None);
    out
}

#[test]
fn blocks_tile_the_buffer() {
    assert_eq!(all_blocks(10, 4), vec![(0, 4), (4, 8), (8, 10)]);
    assert_eq!(all_blocks(8, 4), vec![(0, 4), (4, 8)]);
    assert_eq!(all_blocks(3, 441), vec![(0, 3)]);
}

#[test]
fn empty_buffer_has_no_blocks() {
    assert_eq!(all_blocks(0, 441), Vec::<(usize, usize)>::new());
}

#[test]
fn zero_block_size_walks_sample_by_sample_with_empty_blocks() {
    assert_eq!(all_blocks(3, 0), vec![(0, 0), (1, 1), (2, 2)]);
}

#[test]
fn block_walk_near_the_top_of_usize() {
    let n = usize::MAX;
    let mut walk = EventBlocks::new(n, n - 1);
    assert_eq!(walk.next_block(), Some((0, n - 1)));
    assert_eq!(walk.next_block(), Some((n - 1, n)));
    assert_eq!(walk.next_block(), None);
}

#[test]
fn events_are_cut_at_the_end_of_the_buffer() {
    assert_eq!(place_event(10, 8, 1, 5), Some((9, 1)));
    assert_eq!(place_event(10, 4, 1, 3), Some((5, 3)));
    assert_eq!(place_event(10, 4, 0, 6), Some((4, 6)));
    assert_eq!(place_event(10, 4, 0, 0), Some((4, 0)));
}

#[test]
fn events_past_the_end_are_dropped() {
    assert_eq!(place_event(10, 8, 2, 5), None);
    assert_eq!(place_event(10, 12, 0, 5), None);
    assert_eq!(place_event(0, 0, 0, 5), None);
    assert_eq!(place_event(usize::MAX, usize::MAX - 1, usize::MAX, 1), None);
}
