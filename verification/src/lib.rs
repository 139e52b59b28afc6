//! A verified study library: a bounded worker-pool model with a
//! wait-for-completion shutdown protocol, together with a collection of
//! small verified utilities — arithmetic, string search and parsing,
//! state machines, collections — that exercise the same contract style.

pub mod advanced;
pub mod back_house;
pub mod blog;
pub mod blog_typed;
pub mod borrowing;
pub mod collections;
pub mod generics;
pub mod grep;
pub mod guessing;
pub mod gui;
pub mod inventory;
pub mod lifetimes;
pub mod limits;
pub mod matching;
pub mod numbers;
pub mod ownership;
pub mod pool;
pub mod restaurant;
pub mod samples;
pub mod shapes;
pub mod smart;
pub mod standard;
pub mod summaries;
pub mod web;
