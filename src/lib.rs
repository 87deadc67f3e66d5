//! Locates the structured documents of a company's quarterly reports: merges its recent
//! filing ledger with its historical ledgers and resolves each quarterly report's archive URL.
use vstd::prelude::*;

pub mod fetch;
pub mod io;
pub mod utils;

verus! {

} // verus!
