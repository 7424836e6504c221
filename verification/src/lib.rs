pub mod addr;
pub mod check;
pub mod cli;
pub mod discover;
pub mod indexer;
pub mod instruction;
pub mod layout;
pub mod pda;
pub mod resolve;
pub mod submit;
