pub mod deposit;
pub mod initialize_vault;
pub mod route_yield;
pub mod withdraw;
