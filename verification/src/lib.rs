//! An AXI4-Lite slave controller in front of a small bank of addressable
//! registers, modeled cycle-accurately: one call of
//! [`AXI4LiteSlaveController::update`] stands for one rising clock edge, and
//! a proved transition function pins down every flip-flop's next value.

pub mod bus;
pub mod controller;
pub mod laws;

pub use controller::AXI4LiteSlaveController;

pub use bus::AXI4Burst;
pub use bus::AXI4Cache;
pub use bus::AXI4Master;
pub use bus::AXI4Response;
pub use bus::AXI4Slave;
