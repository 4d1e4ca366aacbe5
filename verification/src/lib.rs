//! Search for small decision trees that control a simulated environment.
//!
//! The library holds the decisions of the search: reading the command line
//! (`cli`), keeping score while a tree is evaluated over several initial
//! states (`evaluator`), the bookkeeping of the search loop (`search`),
//! where the initial states come from (`solver`), and the shell scripts that
//! rerun the published experiments (`experiments`, with decimal rendering in
//! `text`). Simulations, sampling and output are done by the program around
//! it.
use vstd::prelude::*;

pub mod cli;
pub mod evaluator;
pub mod experiments;
pub mod search;
pub mod solver;
pub mod text;

verus! {

} // verus!
