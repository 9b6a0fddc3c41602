//! Tests of the bigram and trigram movement classifiers.

use layout_evaluation::bigram_metrics::scissor_base::{classify_scissor, is_adjacent_fingers, ScissorType};
use layout_evaluation::key::{Direction, Finger, Hand, KeyDescriptor, LayerKey};
use layout_evaluation::trigram_metrics::redirect_base::classify_redirect;
use layout_evaluation::trigram_metrics::trigram_stats::{
    classify_same_hand_roll, classify_trigram, TrigramCategory,
};

fn key_at(hand: Hand, finger: Finger, direction: Direction, column: u8, symbol: char) -> LayerKey {
    LayerKey {
        key: KeyDescriptor {
            hand,
            finger,
            direction,
            column,
            row: 1,
            cost: 1_000_000,
        },
        symbol,
        is_modifier: false,
    }
}

#[test]
fn lateral_roll_is_never_a_scissor() {
    let a = key_at(Hand::Left, Finger::Ring, Direction::In, 1, 'a');
    let b = key_at(Hand::Left, Finger::Middle, Direction::In, 2, 'b');
    assert_eq!(classify_scissor(&a, &b), None);
    let c = key_at(Hand::Left, Finger::Ring, Direction::Out, 1, 'c');
    let d = key_at(Hand::Left, Finger::Middle, Direction::Out, 2, 'd');
    assert_eq!(classify_scissor(&c, &d), None);
}

#[test]
fn vertical_scissor_is_classified() {
    let a = key_at(Hand::Left, Finger::Ring, Direction::North, 1, 'a');
    let b = key_at(Hand::Left, Finger::Middle, Direction::South, 2, 'b');
    assert_eq!(classify_scissor(&a, &b), Some(ScissorType::Vertical));
    let c = key_at(Hand::Left, Finger::Ring, Direction::South, 1, 'c');
    let d = key_at(Hand::Left, Finger::Middle, Direction::North, 2, 'd');
    assert_eq!(classify_scissor(&c, &d), Some(ScissorType::Vertical));
}

#[test]
fn squeeze_and_splay_partition_lateral_oppositions() {
    // Ring (index 3) moving in, middle (index 2) moving out: the motion
    // runs inward and does not start outward, so the fingers close.
    let a = key_at(Hand::Left, Finger::Ring, Direction::In, 1, 'a');
    let b = key_at(Hand::Left, Finger::Middle, Direction::Out, 2, 'b');
    assert_eq!(classify_scissor(&a, &b), Some(ScissorType::Squeeze));
    // The same pair with the directions swapped splays.
    let c = key_at(Hand::Left, Finger::Ring, Direction::Out, 1, 'c');
    let d = key_at(Hand::Left, Finger::Middle, Direction::In, 2, 'd');
    assert_eq!(classify_scissor(&c, &d), Some(ScissorType::Splay));
    // Middle to ring with (In, Out) spreads the fingers apart.
    let e = key_at(Hand::Left, Finger::Middle, Direction::In, 2, 'e');
    let f = key_at(Hand::Left, Finger::Ring, Direction::Out, 1, 'f');
    assert_eq!(classify_scissor(&e, &f), Some(ScissorType::Splay));
    // And with (Out, In) it closes them.
    let g = key_at(Hand::Left, Finger::Middle, Direction::Out, 2, 'g');
    let h = key_at(Hand::Left, Finger::Ring, Direction::In, 1, 'h');
    assert_eq!(classify_scissor(&g, &h), Some(ScissorType::Squeeze));
}

#[test]
fn diagonal_and_lateral_half_scissors() {
    let a = key_at(Hand::Right, Finger::Index, Direction::In, 7, 'a');
    let b = key_at(Hand::Right, Finger::Middle, Direction::North, 6, 'b');
    assert_eq!(classify_scissor(&a, &b), Some(ScissorType::Diagonal));
    let c = key_at(Hand::Right, Finger::Index, Direction::Out, 7, 'c');
    let d = key_at(Hand::Right, Finger::Middle, Direction::Center, 6, 'd');
    assert_eq!(classify_scissor(&c, &d), Some(ScissorType::Lateral));
}

#[test]
fn thumbs_and_distant_fingers_are_no_scissor() {
    let a = key_at(Hand::Left, Finger::Thumb, Direction::North, 3, 'a');
    let b = key_at(Hand::Left, Finger::Index, Direction::South, 4, 'b');
    assert_eq!(classify_scissor(&a, &b), None);
    let c = key_at(Hand::Left, Finger::Pinky, Direction::North, 0, 'c');
    let d = key_at(Hand::Left, Finger::Middle, Direction::South, 2, 'd');
    assert_eq!(classify_scissor(&c, &d), None);
    let e = key_at(Hand::Left, Finger::Ring, Direction::North, 1, 'e');
    let f = key_at(Hand::Right, Finger::Middle, Direction::South, 6, 'f');
    assert_eq!(classify_scissor(&e, &f), None);
}

#[test]
fn adjacent_fingers_excludes_modifier_repeat() {
    let mut a = key_at(Hand::Left, Finger::Ring, Direction::North, 1, 'a');
    let b = key_at(Hand::Left, Finger::Middle, Direction::South, 2, 'b');
    assert!(is_adjacent_fingers(&a, &b));
    a.is_modifier = true;
    assert!(is_adjacent_fingers(&a, &b));
    let a2 = a;
    assert!(!is_adjacent_fingers(&a, &a2));
}

#[test]
fn same_hand_trigram_falls_into_exactly_one_category() {
    // Both movements inward: a three-key roll in, nothing else.
    let k1 = key_at(Hand::Left, Finger::Pinky, Direction::Center, 0, 'a');
    let k2 = key_at(Hand::Left, Finger::Ring, Direction::Center, 1, 'b');
    let k3 = key_at(Hand::Left, Finger::Middle, Direction::Center, 2, 'c');
    assert_eq!(classify_trigram(&k1, &k2, &k3), TrigramCategory::RollIn);
    assert_eq!(classify_same_hand_roll(&k1, &k2, &k3), (true, false));
    assert_eq!(classify_redirect(&k1, &k2, &k3), (false, false));
    // Both movements outward: a roll out.
    assert_eq!(classify_trigram(&k3, &k2, &k1), TrigramCategory::RollOut);
    // A same-finger sub-bigram disqualifies the roll.
    let k2b = key_at(Hand::Left, Finger::Pinky, Direction::North, 1, 'd');
    assert_eq!(classify_trigram(&k1, &k2b, &k3), TrigramCategory::Other);
}

#[test]
fn redirect_with_index_is_normal() {
    // Left ring, left index, left pinky: inward then outward, and the
    // index finger takes part, so the redirect is a normal one.
    let k1 = key_at(Hand::Left, Finger::Ring, Direction::Center, 1, 'a');
    let k2 = key_at(Hand::Left, Finger::Index, Direction::Center, 3, 'b');
    let k3 = key_at(Hand::Left, Finger::Pinky, Direction::Center, 0, 'c');
    assert_eq!(classify_redirect(&k1, &k2, &k3), (true, false));
    assert_eq!(classify_trigram(&k1, &k2, &k3), TrigramCategory::Redirect);
}

#[test]
fn redirect_without_index_or_thumb_is_weak() {
    let k1 = key_at(Hand::Left, Finger::Pinky, Direction::Center, 0, 'a');
    let k2 = key_at(Hand::Left, Finger::Middle, Direction::Center, 2, 'b');
    let k3 = key_at(Hand::Left, Finger::Ring, Direction::Center, 1, 'c');
    assert_eq!(classify_redirect(&k1, &k2, &k3), (true, true));
    assert_eq!(classify_trigram(&k1, &k2, &k3), TrigramCategory::WeakRedirect);
}

#[test]
fn alternation_and_bigram_rolls() {
    let l1 = key_at(Hand::Left, Finger::Ring, Direction::Center, 1, 'a');
    let r = key_at(Hand::Right, Finger::Index, Direction::Center, 5, 'b');
    let l2 = key_at(Hand::Left, Finger::Middle, Direction::Center, 2, 'c');
    assert_eq!(classify_trigram(&l1, &r, &l2), TrigramCategory::Alternation);
    // Two left keys rolling inward, then a right key.
    assert_eq!(classify_trigram(&l1, &l2, &r), TrigramCategory::BigramRollIn);
    // Two left keys rolling outward after a right key.
    assert_eq!(classify_trigram(&r, &l2, &l1), TrigramCategory::BigramRollOut);
    // A same-finger pair rolls neither way.
    let l3 = key_at(Hand::Left, Finger::Ring, Direction::South, 2, 'd');
    assert_eq!(classify_trigram(&l1, &l3, &r), TrigramCategory::Other);
}

#[test]
fn finger_indices_and_distance() {
    assert_eq!(Finger::Thumb.numeric_index(), 0);
    assert_eq!(Finger::Pinky.numeric_index(), 4);
    assert_eq!(Finger::Ring.distance(&Finger::Middle), 1);
    assert_eq!(Finger::Middle.distance(&Finger::Ring), 1);
    assert_eq!(Finger::Pinky.distance(&Finger::Index), 3);
}
