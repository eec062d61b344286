//! Reachability checking of a list of URLs: the ordered registry of entries
//! with their statuses, the decisions taken on each user command and probe
//! result, the normalization of addresses before probing, and the error log.
//!
//! The caller performs the outside work that `URLChecker::update` asks for
//! (probes, reloading the list, the clipboard) and hands results back as
//! messages.
use vstd::prelude::*;

pub mod checker;
pub mod error_log;
pub mod laws;
pub mod normalize;
pub mod status;

verus! {

} // verus!
