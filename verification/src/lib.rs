//! Simulation core of a gift-card trading game: a clock that drives a daily
//! tick, a perishable inventory ledger, a seasonal market with scheduled
//! events, an order book, narrative events with player choices, business
//! analytics and an achievement tracker, all owned by one aggregate.
//!
//! Every function carries a contract over the mathematical model of the
//! state, and every contract is machine-checked.

pub mod text;
pub mod activity;
pub mod multiplier;
pub mod retailer;
pub mod inventory;
pub mod ledger;
pub mod analytics;
pub mod market;
pub mod order;
pub mod random_event;
pub mod event_manager;
pub mod achievement;
pub mod tracker;
pub mod progress;
pub mod sound;
pub mod game;
pub mod book;
pub mod trade;
pub mod clock;
pub mod laws;
