//! Tests of the metric engine, the concrete metrics and their scenarios.

use layout_evaluation::bigram_metrics::bigram_stats::{
    BigramStats, Parameters as BigramStatsParameters,
};
use layout_evaluation::bigram_metrics::cluster_rolls::{
    ClusterRolls, Parameters as ClusterRollsParameters,
};
use layout_evaluation::bigram_metrics::fsb::{
    CategoryParams as FsbCategoryParams, Fsb, Parameters as FsbParameters,
};
use layout_evaluation::bigram_metrics::hsb::{
    CategoryParams as HsbCategoryParams, Hsb, Parameters as HsbParameters,
};
use layout_evaluation::bigram_metrics::scissors::{Parameters as ScissorsParameters, Scissors};
use layout_evaluation::bigram_metrics::sfb::{Parameters as SfbParameters, Sfb};
use layout_evaluation::bigram_metrics::{
    total_cost_with, BigramMetric, ReportOptions, WeightedBigram,
};
use layout_evaluation::config::{
    DirectionCost, DirectionPair, FingerFactors, FrequencyAmplifier,
};
use layout_evaluation::fixed::UNIT;
use layout_evaluation::key::{Direction, Finger, Hand, KeyDescriptor, LayerKey};
use layout_evaluation::metric_set::{BigramMetricVariant, MetricSet, TrigramMetricVariant};
use layout_evaluation::trigram_metrics::redirects::{
    Parameters as RedirectsParameters, Redirects,
};
use layout_evaluation::trigram_metrics::sfs::{Parameters as SfsParameters, Sfs};
use layout_evaluation::trigram_metrics::trigram_stats::{
    Parameters as TrigramStatsParameters, TrigramStats,
};
use layout_evaluation::trigram_metrics::weak_redirect::{
    Parameters as WeakRedirectParameters, WeakRedirect,
};
use layout_evaluation::trigram_metrics::{TrigramMetric, WeightedTrigram};
use layout_evaluation::unigram_metrics::character_constraints::{
    CharPositionCost, CharacterConstraints, Parameters as CharacterConstraintsParameters,
};
use layout_evaluation::unigram_metrics::{UnigramMetric, WeightedUnigram};

fn mk_key(
    hand: Hand,
    finger: Finger,
    direction: Direction,
    column: u8,
    cost: u64,
    symbol: char,
) -> LayerKey {
    LayerKey {
        key: KeyDescriptor {
            hand,
            finger,
            direction,
            column,
            row: 1,
            cost,
        },
        symbol,
        is_modifier: false,
    }
}

fn no_fingers() -> FingerFactors {
    FingerFactors {
        thumb: None,
        index: None,
        middle: None,
        ring: None,
        pinky: None,
    }
}

#[test]
fn vertical_scissor_costs_twenty() {
    // Two same-hand adjacent-finger keys with directions (North, South),
    // weight 10, total weight 100, vertical base cost 2.0, no finger or
    // frequency multipliers: the individual cost is 20.0 and the category
    // vertical.
    let fsb = Fsb::new(&FsbParameters {
        vertical: FsbCategoryParams { cost: 2 * UNIT, finger_factors: None },
        squeeze: FsbCategoryParams { cost: 7 * UNIT, finger_factors: None },
        splay: FsbCategoryParams { cost: 5 * UNIT, finger_factors: None },
        critical_bigram_fraction: None,
        critical_bigram_factor: None,
    });
    let a = mk_key(Hand::Left, Finger::Ring, Direction::North, 1, UNIT, 'a');
    let b = mk_key(Hand::Left, Finger::Middle, Direction::South, 2, UNIT, 'b');
    let cost = fsb.individual_cost(&a, &b, 10 * UNIT, 100 * UNIT);
    assert_eq!(cost, Some(20 * UNIT));
}

#[test]
fn excluded_sfb_movement_contributes_nothing() {
    // An SFB with direction pair (Center, South) and that pair excluded:
    // it contributes zero despite matching hand and finger.
    let params = SfbParameters {
        default_cost: UNIT,
        ignore_thumb: false,
        exclude_modifiers: None,
        costs: vec![DirectionCost {
            from: Direction::Center,
            to: Direction::South,
            cost: 3 * UNIT,
        }],
        finger_factors: no_fingers(),
        ignore_movements: vec![DirectionPair {
            from: Direction::Center,
            to: Direction::South,
        }],
        critical_bigram_fraction: None,
        critical_bigram_factor: None,
    };
    let sfb = Sfb::new(&params);
    let a = mk_key(Hand::Left, Finger::Index, Direction::Center, 3, UNIT, 'a');
    let b = mk_key(Hand::Left, Finger::Index, Direction::South, 3, UNIT, 'b');
    assert_eq!(sfb.individual_cost(&a, &b, 5 * UNIT, 100 * UNIT), Some(0));
    // Without the exclusion the same bigram is penalized.
    let mut params2 = params;
    params2.ignore_movements = vec![];
    let sfb2 = Sfb::new(&params2);
    assert_eq!(
        sfb2.individual_cost(&a, &b, 5 * UNIT, 100 * UNIT),
        Some(15 * UNIT)
    );
}

#[test]
fn frequency_amplifier_threshold() {
    // Threshold 0.01 and factor 50: a share of 0.02 is amplified by 50, a
    // share of 0.005 is not.
    let amp = FrequencyAmplifier {
        critical_fraction: Some(UNIT / 100),
        critical_factor: Some(50 * UNIT),
    };
    assert_eq!(amp.multiplier(2 * UNIT / 100, UNIT), 50 * UNIT);
    assert_eq!(amp.multiplier(5 * UNIT / 1000, UNIT), UNIT);
}

#[test]
fn total_cost_is_sum_of_individual_costs() {
    let params = SfbParameters {
        default_cost: 2 * UNIT,
        ignore_thumb: false,
        exclude_modifiers: None,
        costs: vec![],
        finger_factors: no_fingers(),
        ignore_movements: vec![],
        critical_bigram_fraction: None,
        critical_bigram_factor: None,
    };
    let sfb = Sfb::new(&params);
    let a = mk_key(Hand::Left, Finger::Index, Direction::Center, 3, UNIT, 'a');
    let b = mk_key(Hand::Left, Finger::Index, Direction::South, 3, UNIT, 'b');
    let c = mk_key(Hand::Right, Finger::Middle, Direction::Center, 6, UNIT, 'c');
    let bigrams = vec![
        WeightedBigram { first: a, second: b, weight: 3 * UNIT },
        WeightedBigram { first: b, second: a, weight: 2 * UNIT },
        WeightedBigram { first: a, second: c, weight: 5 * UNIT },
    ];
    let total_weight = 10 * UNIT;
    let mut manual: u64 = 0;
    for bg in &bigrams {
        manual += sfb
            .individual_cost(&bg.first, &bg.second, bg.weight, total_weight)
            .unwrap_or(0);
    }
    // With reporting off.
    let off = ReportOptions { show_worst: false, n_worst: 3 };
    let (total_off, msg_off) = total_cost_with(&sfb, &bigrams, Some(total_weight), &off);
    assert_eq!(total_off, manual);
    assert!(msg_off.is_none());
    // With reporting on the total is unchanged.
    let on = ReportOptions { show_worst: true, n_worst: 3 };
    let (total_on, msg_on) = total_cost_with(&sfb, &bigrams, Some(total_weight), &on);
    assert_eq!(total_on, manual);
    assert!(msg_on.is_some());
    assert_eq!(total_on, 10 * UNIT);
}

#[test]
fn worst_report_lists_costly_bigrams_first() {
    let params = SfbParameters {
        default_cost: UNIT,
        ignore_thumb: false,
        exclude_modifiers: None,
        costs: vec![],
        finger_factors: no_fingers(),
        ignore_movements: vec![],
        critical_bigram_fraction: None,
        critical_bigram_factor: None,
    };
    let sfb = Sfb::new(&params);
    let a = mk_key(Hand::Left, Finger::Index, Direction::Center, 3, UNIT, 'a');
    let b = mk_key(Hand::Left, Finger::Index, Direction::South, 3, UNIT, 'b');
    let bigrams = vec![WeightedBigram { first: a, second: b, weight: UNIT }];
    let on = ReportOptions { show_worst: true, n_worst: 3 };
    let (total, msg) = total_cost_with(&sfb, &bigrams, Some(4 * UNIT), &on);
    assert_eq!(total, UNIT);
    // The one positive bigram carries all the cost and a quarter of the
    // corpus.
    assert_eq!(msg.unwrap(), "Worst: ab 100.0%|25.00%");
}

#[test]
fn fsb_report_groups_by_category() {
    let fsb = Fsb::new(&FsbParameters {
        vertical: FsbCategoryParams { cost: 2 * UNIT, finger_factors: None },
        squeeze: FsbCategoryParams { cost: 7 * UNIT, finger_factors: None },
        splay: FsbCategoryParams { cost: 5 * UNIT, finger_factors: None },
        critical_bigram_fraction: None,
        critical_bigram_factor: None,
    });
    let a = mk_key(Hand::Left, Finger::Ring, Direction::North, 1, UNIT, 'a');
    let b = mk_key(Hand::Left, Finger::Middle, Direction::South, 2, UNIT, 'b');
    let bigrams = vec![WeightedBigram { first: a, second: b, weight: UNIT }];
    let on = ReportOptions { show_worst: true, n_worst: 3 };
    let (total, msg) = fsb.total_cost(&bigrams, Some(10 * UNIT), &on);
    assert_eq!(total, 2 * UNIT);
    assert_eq!(msg.unwrap(), "Vertical: ab 100.0%|10.00%");
}

#[test]
fn redirect_report_lists_trigrams() {
    let redirects = Redirects::new(&RedirectsParameters {
        base_cost: None,
        ignore_thumbs: None,
        ignore_modifiers: None,
    });
    let k1 = mk_key(Hand::Left, Finger::Ring, Direction::Center, 1, UNIT, 'a');
    let k2 = mk_key(Hand::Left, Finger::Index, Direction::Center, 3, UNIT, 'b');
    let k3 = mk_key(Hand::Left, Finger::Pinky, Direction::Center, 0, UNIT, 'c');
    let trigrams = vec![WeightedTrigram { first: k1, second: k2, third: k3, weight: 2 * UNIT }];
    let on = ReportOptions { show_worst: true, n_worst: 3 };
    let (total, msg) = redirects.total_cost(&trigrams, Some(10 * UNIT), &on);
    assert_eq!(total, 2 * UNIT);
    assert_eq!(msg.unwrap(), "abc 100.0%|20.00%");
}

#[test]
fn stats_metrics_have_no_individual_cost() {
    let bigram_stats = BigramStats::new(&BigramStatsParameters {
        ignore_thumbs: true,
        ignore_modifiers: true,
        ignore_movements: vec![],
    });
    let trigram_stats = TrigramStats::new(&TrigramStatsParameters {
        ignore_modifiers: true,
        ignore_thumbs: true,
        same_finger_rolls: vec![],
    });
    let a = mk_key(Hand::Left, Finger::Index, Direction::Center, 3, UNIT, 'a');
    let b = mk_key(Hand::Left, Finger::Index, Direction::South, 3, UNIT, 'b');
    assert_eq!(bigram_stats.individual_cost(&a, &b, UNIT, 10 * UNIT), None);
    assert_eq!(
        trigram_stats.individual_cost(&a, &b, &a, UNIT, 10 * UNIT),
        None
    );
}

#[test]
fn scissors_cost_difference_formulation() {
    let scissors = Scissors::new(&ScissorsParameters {
        full_scissor_vertical_factor: 2 * UNIT,
        full_scissor_squeeze_factor: 3 * UNIT,
        full_scissor_splay_factor: UNIT,
        half_scissor_factor: UNIT / 2,
        lateral_stretch_factor: UNIT / 4,
        critical_bigram_fraction: None,
        critical_bigram_factor: None,
    });
    // Intrinsic costs 3.0 and 1.0 with a vertical opposition: the base
    // cost is 2.0 * |3.0 - 1.0| = 4.0.
    let a = mk_key(Hand::Left, Finger::Ring, Direction::North, 1, 3 * UNIT, 'a');
    let b = mk_key(Hand::Left, Finger::Middle, Direction::South, 2, UNIT, 'b');
    assert_eq!(scissors.bigram_cost(&a, &b), Some(4 * UNIT));
    assert_eq!(
        scissors.individual_cost(&a, &b, 2 * UNIT, 100 * UNIT),
        Some(8 * UNIT)
    );
    // A lateral roll has no scissor cost at all.
    let c = mk_key(Hand::Left, Finger::Ring, Direction::In, 1, 3 * UNIT, 'c');
    let d = mk_key(Hand::Left, Finger::Middle, Direction::In, 2, UNIT, 'd');
    assert_eq!(scissors.bigram_cost(&c, &d), None);
    assert_eq!(scissors.individual_cost(&c, &d, 2 * UNIT, 100 * UNIT), Some(0));
}

#[test]
fn hsb_prices_diagonal_and_lateral() {
    let hsb = Hsb::new(&HsbParameters {
        diagonal: HsbCategoryParams { cost: 3 * UNIT, finger_factors: None },
        lateral: HsbCategoryParams { cost: 2 * UNIT, finger_factors: None },
        critical_bigram_fraction: None,
        critical_bigram_factor: None,
    });
    let a = mk_key(Hand::Right, Finger::Index, Direction::In, 7, UNIT, 'a');
    let b = mk_key(Hand::Right, Finger::Middle, Direction::North, 6, UNIT, 'b');
    assert_eq!(hsb.individual_cost(&a, &b, UNIT, 100 * UNIT), Some(3 * UNIT));
    let c = mk_key(Hand::Right, Finger::Index, Direction::Out, 7, UNIT, 'c');
    let d = mk_key(Hand::Right, Finger::Middle, Direction::Center, 6, UNIT, 'd');
    assert_eq!(hsb.individual_cost(&c, &d, UNIT, 100 * UNIT), Some(2 * UNIT));
    // A vertical opposition is a full scissor, not a half one.
    let e = mk_key(Hand::Right, Finger::Index, Direction::North, 7, UNIT, 'e');
    let f = mk_key(Hand::Right, Finger::Middle, Direction::South, 6, UNIT, 'f');
    assert_eq!(hsb.individual_cost(&e, &f, UNIT, 100 * UNIT), Some(0));
}

#[test]
fn finger_factors_take_the_weaker_finger() {
    let factors = FingerFactors {
        thumb: None,
        index: Some(UNIT / 2),
        middle: None,
        ring: None,
        pinky: Some(2 * UNIT),
    };
    assert_eq!(factors.factor(Finger::Pinky), 2 * UNIT);
    assert_eq!(factors.factor(Finger::Middle), UNIT);
    assert_eq!(factors.pair_factor(Finger::Index, Finger::Pinky), 2 * UNIT);
    assert_eq!(factors.pair_factor(Finger::Index, Finger::Middle), UNIT);
}

#[test]
fn cluster_rolls_price_same_finger_movements() {
    let rolls = ClusterRolls::new(&ClusterRollsParameters {
        default_cost: 4 * UNIT,
        ignore_thumb: true,
        costs: vec![DirectionCost {
            from: Direction::Center,
            to: Direction::South,
            cost: UNIT / 2,
        }],
        finger_multipliers: no_fingers(),
        critical_bigram_fraction: None,
        critical_bigram_factor: None,
    });
    let a = mk_key(Hand::Left, Finger::Index, Direction::Center, 3, UNIT, 'a');
    let b = mk_key(Hand::Left, Finger::Index, Direction::South, 3, UNIT, 'b');
    // A listed movement takes its table cost.
    assert_eq!(rolls.individual_cost(&a, &b, 2 * UNIT, 100 * UNIT), Some(UNIT));
    // An unlisted movement falls back to the default.
    assert_eq!(rolls.individual_cost(&b, &a, 2 * UNIT, 100 * UNIT), Some(8 * UNIT));
    // A thumb movement is ignored.
    let t1 = mk_key(Hand::Left, Finger::Thumb, Direction::Center, 3, UNIT, 't');
    let t2 = mk_key(Hand::Left, Finger::Thumb, Direction::South, 3, UNIT, 'u');
    assert_eq!(rolls.individual_cost(&t1, &t2, 2 * UNIT, 100 * UNIT), Some(0));
}

#[test]
fn redirect_metrics_split_by_weakness() {
    let redirects = Redirects::new(&RedirectsParameters {
        base_cost: None,
        ignore_thumbs: None,
        ignore_modifiers: None,
    });
    let weak = WeakRedirect::new(&WeakRedirectParameters {
        base_cost: Some(3 * UNIT),
        ignore_thumbs: None,
        ignore_modifiers: None,
    });
    // A normal redirect: counted by Redirects at its weight, not by
    // WeakRedirect.
    let k1 = mk_key(Hand::Left, Finger::Ring, Direction::Center, 1, UNIT, 'a');
    let k2 = mk_key(Hand::Left, Finger::Index, Direction::Center, 3, UNIT, 'b');
    let k3 = mk_key(Hand::Left, Finger::Pinky, Direction::Center, 0, UNIT, 'c');
    assert_eq!(
        redirects.individual_cost(&k1, &k2, &k3, 2 * UNIT, 100 * UNIT),
        Some(2 * UNIT)
    );
    assert_eq!(weak.individual_cost(&k1, &k2, &k3, 2 * UNIT, 100 * UNIT), Some(0));
    // A weak redirect: the other way round, at three times its weight.
    let w1 = mk_key(Hand::Left, Finger::Pinky, Direction::Center, 0, UNIT, 'd');
    let w2 = mk_key(Hand::Left, Finger::Middle, Direction::Center, 2, UNIT, 'e');
    let w3 = mk_key(Hand::Left, Finger::Ring, Direction::Center, 1, UNIT, 'f');
    assert_eq!(redirects.individual_cost(&w1, &w2, &w3, 2 * UNIT, 100 * UNIT), Some(0));
    assert_eq!(
        weak.individual_cost(&w1, &w2, &w3, 2 * UNIT, 100 * UNIT),
        Some(6 * UNIT)
    );
}

#[test]
fn sfs_costs_weight_times_finger_factor() {
    let sfs = Sfs::new(&SfsParameters {
        ignore_thumb: true,
        ignore_modifiers: true,
        finger_factors: FingerFactors {
            thumb: None,
            index: None,
            middle: Some(3 * UNIT),
            ring: None,
            pinky: None,
        },
    });
    let k1 = mk_key(Hand::Left, Finger::Middle, Direction::North, 2, UNIT, 'a');
    let k2 = mk_key(Hand::Right, Finger::Index, Direction::Center, 5, UNIT, 'b');
    let k3 = mk_key(Hand::Left, Finger::Middle, Direction::South, 2, UNIT, 'c');
    assert_eq!(sfs.individual_cost(&k1, &k2, &k3, 2 * UNIT, 100 * UNIT), Some(6 * UNIT));
    // Different fingers on the outer keys: no skipgram.
    let k3b = mk_key(Hand::Left, Finger::Ring, Direction::South, 1, UNIT, 'd');
    assert_eq!(sfs.individual_cost(&k1, &k2, &k3b, 2 * UNIT, 100 * UNIT), Some(0));
}

#[test]
fn character_constraints_price_listed_placements() {
    let constraints = CharacterConstraints::new(&CharacterConstraintsParameters {
        costs: vec![CharPositionCost {
            symbol: 'q',
            column: 0,
            row: 1,
            cost: 5 * UNIT / 2,
        }],
    });
    let q = mk_key(Hand::Left, Finger::Pinky, Direction::North, 0, UNIT, 'q');
    assert_eq!(constraints.individual_cost(&q, 2 * UNIT, 100 * UNIT), Some(5 * UNIT));
    let other = mk_key(Hand::Left, Finger::Pinky, Direction::North, 2, UNIT, 'q');
    assert_eq!(constraints.individual_cost(&other, 2 * UNIT, 100 * UNIT), Some(0));
}

#[test]
fn bigram_stats_count_categories() {
    let stats = BigramStats::new(&BigramStatsParameters {
        ignore_thumbs: true,
        ignore_modifiers: true,
        ignore_movements: vec![DirectionPair {
            from: Direction::Center,
            to: Direction::South,
        }],
    });
    let a = mk_key(Hand::Left, Finger::Index, Direction::Center, 3, UNIT, 'a');
    let b = mk_key(Hand::Left, Finger::Index, Direction::South, 3, UNIT, 'b');
    let c = mk_key(Hand::Left, Finger::Ring, Direction::North, 1, UNIT, 'c');
    let d = mk_key(Hand::Left, Finger::Middle, Direction::South, 2, UNIT, 'd');
    let bigrams = vec![
        // An excluded SFB movement.
        WeightedBigram { first: a, second: b, weight: 3 * UNIT },
        // A counted SFB movement.
        WeightedBigram { first: b, second: a, weight: 2 * UNIT },
        // A vertical scissor.
        WeightedBigram { first: c, second: d, weight: 5 * UNIT },
    ];
    let summary = stats.summarize(&bigrams, Some(10 * UNIT));
    assert_eq!(summary.sfb_weight, 2 * UNIT);
    assert_eq!(summary.vertical_weight, 5 * UNIT);
    assert_eq!(summary.squeeze_weight, 0);
    assert_eq!(summary.total_weight, 10 * UNIT);
    let (total, msg) = stats.total_cost(&bigrams, Some(10 * UNIT));
    assert_eq!(total, 0);
    assert_eq!(msg.unwrap(), "SFB: 20%; Vertical: 50%");
}

#[test]
fn bigram_stats_degrade_to_none_when_nothing_matches() {
    let stats = BigramStats::new(&BigramStatsParameters {
        ignore_thumbs: true,
        ignore_modifiers: true,
        ignore_movements: vec![],
    });
    // An empty collection matches no category: no diagnostic at all.
    let (total, msg) = stats.total_cost(&vec![], Some(10 * UNIT));
    assert_eq!(total, 0);
    assert!(msg.is_none());
    // A collection whose only bigram falls in no category likewise.
    let a = mk_key(Hand::Left, Finger::Index, Direction::Center, 3, UNIT, 'a');
    let b = mk_key(Hand::Right, Finger::Middle, Direction::Center, 6, UNIT, 'b');
    let bigrams = vec![WeightedBigram { first: a, second: b, weight: 3 * UNIT }];
    let (total, msg) = stats.total_cost(&bigrams, Some(10 * UNIT));
    assert_eq!(total, 0);
    assert!(msg.is_none());
}

#[test]
fn trigram_stats_count_categories() {
    let stats = TrigramStats::new(&TrigramStatsParameters {
        ignore_modifiers: true,
        ignore_thumbs: true,
        same_finger_rolls: vec![DirectionPair {
            from: Direction::Center,
            to: Direction::South,
        }],
    });
    let l1 = mk_key(Hand::Left, Finger::Ring, Direction::Center, 1, UNIT, 'a');
    let l2 = mk_key(Hand::Left, Finger::Middle, Direction::Center, 2, UNIT, 'b');
    let r1 = mk_key(Hand::Right, Finger::Index, Direction::Center, 5, UNIT, 'c');
    let s1 = mk_key(Hand::Left, Finger::Index, Direction::Center, 3, UNIT, 'd');
    let s2 = mk_key(Hand::Left, Finger::Index, Direction::South, 3, UNIT, 'e');
    let trigrams = vec![
        // An alternation.
        WeightedTrigram { first: l1, second: r1, third: l2, weight: UNIT },
        // A two-key inward roll followed by the other hand.
        WeightedTrigram { first: l1, second: l2, third: r1, weight: 2 * UNIT },
        // A tracked same-finger roll inside a two-one pattern.
        WeightedTrigram { first: s1, second: s2, third: r1, weight: 4 * UNIT },
    ];
    let summary = stats.summarize(&trigrams, Some(10 * UNIT));
    assert_eq!(summary.alternation_weight, UNIT);
    assert_eq!(summary.bigram_roll_in_weight, 2 * UNIT);
    assert_eq!(summary.same_finger_roll_weights, vec![4 * UNIT]);
    assert_eq!(summary.valid_weight, 7 * UNIT);
    let (total, msg) = stats.total_cost(&trigrams, Some(10 * UNIT));
    assert_eq!(total, 0);
    // The tracked same-finger roll is no two-key roll proper, so its
    // trigram also counts under the residual category.
    assert_eq!(
        msg.unwrap(),
        "2-Roll Total: 85.7%, 2-Roll In: 28.5%, 2-Roll Center\u{2192}South: 57.1%; Alt: 14.2%; Other: 57.1%"
    );
}

#[test]
fn worst_report_makes_spaces_visible() {
    let params = SfbParameters {
        default_cost: UNIT,
        ignore_thumb: false,
        exclude_modifiers: None,
        costs: vec![],
        finger_factors: no_fingers(),
        ignore_movements: vec![],
        critical_bigram_fraction: None,
        critical_bigram_factor: None,
    };
    let sfb = Sfb::new(&params);
    let a = mk_key(Hand::Left, Finger::Index, Direction::Center, 3, UNIT, ' ');
    let b = mk_key(Hand::Left, Finger::Index, Direction::South, 3, UNIT, 'x');
    let bigrams = vec![WeightedBigram { first: a, second: b, weight: UNIT }];
    let on = ReportOptions { show_worst: true, n_worst: 3 };
    let (_, msg) = total_cost_with(&sfb, &bigrams, Some(2 * UNIT), &on);
    assert_eq!(msg.unwrap(), "Worst: \u{2423}x 100.0%|50.00%");
}

#[test]
fn metric_set_sums_all_metrics() {
    let sfb = Sfb::new(&SfbParameters {
        default_cost: 2 * UNIT,
        ignore_thumb: false,
        exclude_modifiers: None,
        costs: vec![],
        finger_factors: no_fingers(),
        ignore_movements: vec![],
        critical_bigram_fraction: None,
        critical_bigram_factor: None,
    });
    let redirects = Redirects::new(&RedirectsParameters {
        base_cost: None,
        ignore_thumbs: None,
        ignore_modifiers: None,
    });
    let set = MetricSet {
        bigram_metrics: vec![BigramMetricVariant::Sfb(sfb)],
        trigram_metrics: vec![TrigramMetricVariant::Redirects(redirects)],
        opts: ReportOptions { show_worst: false, n_worst: 3 },
    };
    let a = mk_key(Hand::Left, Finger::Index, Direction::Center, 3, UNIT, 'a');
    let b = mk_key(Hand::Left, Finger::Index, Direction::South, 3, UNIT, 'b');
    let k1 = mk_key(Hand::Left, Finger::Ring, Direction::Center, 1, UNIT, 'c');
    let k2 = mk_key(Hand::Left, Finger::Index, Direction::Center, 3, UNIT, 'd');
    let k3 = mk_key(Hand::Left, Finger::Pinky, Direction::Center, 0, UNIT, 'e');
    let bigrams = vec![WeightedBigram { first: a, second: b, weight: 3 * UNIT }];
    let trigrams = vec![WeightedTrigram { first: k1, second: k2, third: k3, weight: 2 * UNIT }];
    let (total, results) = set.total_cost(&bigrams, &trigrams, Some(10 * UNIT), Some(10 * UNIT));
    // 3.0 * 2.0 from the SFB plus 2.0 * 1.0 from the redirect.
    assert_eq!(total, 8 * UNIT);
    assert_eq!(results.len(), 2);
    assert_eq!(results[0].name, "SFB");
    assert_eq!(results[0].cost, 6 * UNIT);
    assert_eq!(results[1].name, "Redirects");
    assert_eq!(results[1].cost, 2 * UNIT);
}

#[test]
fn unigram_totals_sum_constraint_costs() {
    let constraints = CharacterConstraints::new(&CharacterConstraintsParameters {
        costs: vec![CharPositionCost { symbol: 'z', column: 0, row: 1, cost: UNIT }],
    });
    let z = mk_key(Hand::Left, Finger::Pinky, Direction::North, 0, UNIT, 'z');
    let y = mk_key(Hand::Left, Finger::Ring, Direction::North, 1, UNIT, 'y');
    let unigrams = vec![
        WeightedUnigram { key: z, weight: 3 * UNIT },
        WeightedUnigram { key: y, weight: 4 * UNIT },
    ];
    let total = layout_evaluation::unigram_metrics::total_unigram_cost(
        &constraints,
        &unigrams,
        10 * UNIT,
    );
    assert_eq!(total, 3 * UNIT);
}
