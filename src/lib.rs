//! Hardware abstraction and task scheduling for neural accelerators.
pub mod types;
pub mod capabilities;
pub mod resources;
pub mod tensor;
pub mod hal;
pub mod device;
pub mod driver;
pub mod scheduler;
pub mod apple;
pub mod registry;
pub mod manager;
pub mod agent_types;
pub mod agent;
pub mod ml;
pub mod files;
pub mod message;
