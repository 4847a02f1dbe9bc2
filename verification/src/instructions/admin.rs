pub mod admin_sets_amplitude;
pub mod admin_settle;
pub mod admin_triggers_settle_mode;
pub mod create_global_state;
pub mod initialize_contract;
