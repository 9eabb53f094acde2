//! Task state board, event interpretation and intent routing for a
//! command-line assistant, with contracts checked by Verus.
use vstd::prelude::*;

pub mod agent;
pub mod board;
pub mod boot;
pub mod event_generator;
pub mod ext;
pub mod intent_router;
pub mod laws;
pub mod model;
pub mod ollama;
pub mod process;
pub mod seqs;
pub mod shell;
pub mod state_board;
pub mod status;
pub mod storage;
pub mod test_record;
pub mod text;
pub mod time;

verus! {
} // verus!
