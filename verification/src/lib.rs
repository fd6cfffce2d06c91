//! Verified core of the player trade system: payload codecs, the asynchronous
//! proposal lifecycle, cash-range rules and UI-tree queries.
use vstd::prelude::*;

pub mod hashing;
pub mod text;
pub mod kv;
pub mod fields;
pub mod proposal;
pub mod plan;
pub mod receipt;
pub mod cash_search;
pub mod status;
pub mod money;
pub mod trade;
pub mod order;
pub mod lifecycle;
pub mod registry;
pub mod commit;
pub mod payload;
pub mod clicks;
pub mod views;
pub mod client;
pub mod display;
pub mod season;
pub mod ui_tree;
pub mod roster;
pub mod profile;
pub mod news;
pub mod requests;

verus! {

} // verus!
