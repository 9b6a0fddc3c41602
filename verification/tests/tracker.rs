//! Tests of the bounded worst-offender tracker.

use layout_evaluation::tracker::TopKTracker;

#[test]
fn tracker_keeps_the_k_highest_costs() {
    // Push ten costs into a tracker of size three and compare against a
    // full sort.
    let costs: Vec<u64> = vec![5, 1, 9, 3, 7, 7, 2, 8, 0, 4];
    let mut tracker = TopKTracker::new(3);
    for (i, c) in costs.iter().enumerate() {
        tracker.push(i, *c);
    }
    assert_eq!(tracker.len(), 3);
    let kept = tracker.into_sorted_desc();
    let mut sorted = costs.clone();
    sorted.sort();
    sorted.reverse();
    let kept_costs: Vec<u64> = kept.iter().map(|e| e.1).collect();
    assert_eq!(kept_costs, sorted[..3].to_vec());
    assert_eq!(kept_costs, vec![9, 8, 7]);
}

#[test]
fn tracker_with_fewer_pushes_keeps_everything() {
    let mut tracker = TopKTracker::new(5);
    tracker.push(0, 2);
    tracker.push(1, 9);
    assert_eq!(tracker.len(), 2);
    let kept = tracker.into_sorted_desc();
    assert_eq!(kept, vec![(1, 9), (0, 2)]);
}

#[test]
fn tracker_handles_ties_by_cost() {
    // With all costs equal, any three of the pushed pairs may stay, but
    // their costs are exactly the three highest.
    let mut tracker = TopKTracker::new(3);
    for i in 0..6 {
        tracker.push(i, 5);
    }
    let kept = tracker.into_sorted_desc();
    assert_eq!(kept.len(), 3);
    for e in &kept {
        assert_eq!(e.1, 5);
        assert!(e.0 < 6);
    }
}

#[test]
fn tracker_merge_combines_partitions() {
    // Two trackers fed disjoint halves of a stream merge into one that
    // retains the highest costs of the whole stream.
    let mut a = TopKTracker::new(3);
    a.push(0, 5);
    a.push(1, 50);
    let mut b = TopKTracker::new(3);
    b.push(2, 30);
    b.push(3, 10);
    b.push(4, 40);
    b.push(5, 20);
    a.merge(b);
    let kept = a.into_sorted_desc();
    assert_eq!(kept, vec![(1, 50), (4, 40), (2, 30)]);
}

#[test]
fn tracker_of_size_zero_keeps_nothing() {
    let mut tracker = TopKTracker::new(0);
    tracker.push(0, 10);
    tracker.push(1, 20);
    assert_eq!(tracker.len(), 0);
    assert_eq!(tracker.into_sorted_desc(), vec![]);
}

#[test]
fn tracker_rises_with_increasing_costs() {
    // Strictly increasing costs evict the oldest entries one by one.
    let mut tracker = TopKTracker::new(2);
    for i in 0..5 {
        tracker.push(i, (i as u64) * 10);
    }
    let kept = tracker.into_sorted_desc();
    assert_eq!(kept, vec![(4, 40), (3, 30)]);
}
