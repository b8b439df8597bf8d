pub mod bus;
pub mod bus_types;
pub mod gpu;
pub mod intc;
pub mod memory;
pub mod padmc;
pub mod state;
pub use state::State;
