pub mod close;
pub mod deposit;
pub mod initialize;
pub mod withdraw;
