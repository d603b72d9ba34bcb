//! Verified logic of a set of small on-chain contracts: two polls, a to-do list,
//! a house that lets rooms, a crossword, a game of battleships, a collecting box,
//! a microblog and a register of reported crimes.
//!
//! Each contract is a value that owns its records in [`store::Store`]s, next to
//! the counters that number them. A message is a method that takes what the
//! chain knows of the call (the caller, the time, the value sent along) as plain
//! arguments, refuses or changes the state, and returns the events to announce
//! and the transfers to make. Nothing here talks to a chain.

pub mod account;
pub mod battelship_contract;
pub mod battelship_ink;
pub mod chain;
pub mod cross_word;
pub mod donation_ink;
pub mod hotel;
pub mod ownable;
pub mod store;
pub mod suspicious_activity;
pub mod text;
pub mod todo_list;
pub mod twitter_ink;
pub mod voting;
pub mod voting_dapp;
