//! What holds of the monitor as a whole.

pub mod activation;
pub mod answers;
pub mod attachment;
pub mod budget;
pub mod datagrams;
pub mod deadlines;
pub mod identity;
pub mod modes;
pub mod negotiation;
pub mod order;
pub mod outage;
pub mod plain;
pub mod port;
pub mod progress;
pub mod public;
pub mod sharing;
pub mod swap;
pub mod trace;
pub mod upstream;
pub mod waiting;
pub mod window;
pub mod writes;
