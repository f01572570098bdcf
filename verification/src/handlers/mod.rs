//! The workflows: loading the input into the store, and the three reports.

pub mod known;
pub mod laws;
pub mod load;
pub mod range;
pub mod unknown;
pub mod utils;

pub use known::{known_customer_deposits, KnownDepositsState};
pub use load::{load_data, LoadState};
pub use range::{calculate_range, RangeState};
pub use unknown::{unknown_customer_deposits, UnknownDepositsState};
pub use utils::{insert_all_known_clients, insert_all_transactions, Batch};
