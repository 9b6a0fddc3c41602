//! Ergonomic scoring of keyboard layouts.
//!
//! The crate classifies weighted bigrams and trigrams of keystrokes into a
//! closed taxonomy of biomechanical movement categories (same-finger bigrams,
//! scissors, rolls, redirects, ...) and aggregates per-category costs into a
//! single scalar together with a report of the worst offenders.
//!
//! All costs, weights and factors are fixed-point numbers: a `u64` counts
//! millionths, so `1_000_000` stands for `1.0` (see [`fixed`]).

pub mod bigram_metrics;
pub mod config;
pub mod fixed;
pub mod format_utils;
pub mod key;
pub mod metric_set;
pub mod tracker;
pub mod trigram_metrics;
pub mod unigram_metrics;
