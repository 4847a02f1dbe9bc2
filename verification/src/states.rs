pub mod contract_state;
pub mod global_state;
pub mod user_state;
