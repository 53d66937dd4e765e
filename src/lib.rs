pub mod coin;
pub mod contract;
pub mod error;
pub mod laws;
pub mod msg;
pub mod parser;
pub mod state;
pub mod table;
