//! A restartable fixed-timestep simulation runtime.
//!
//! A front-end process supervises a simulation process and talks to it over a pair of
//! one-directional channels. Inside the simulation process a tick scheduler runs the
//! registered systems against a double-buffered world; systems never write to the world
//! directly but enqueue commands that are applied one cycle later.
//!
//! Everything here is decision logic and data: the code that opens channels, starts
//! processes, reads clocks or fans work out to threads lives with the caller and drives
//! these state machines one step at a time.

pub mod action;
pub mod client;
pub mod engine;
pub mod frontend;
pub mod input;
pub mod plugin;
pub mod rendezvous;
pub mod scheduler;
pub mod supervisor;
pub mod system;
pub mod wire;
pub mod world;
