//! Client-side state synchronization for a multiplayer 2D game: the wire
//! messages, the queues between the socket task and the simulation, the
//! reconciliation of server events into the local entity set, the movement
//! rule shared by all avatars, and the connection and shutdown state machines.

pub mod animation;
pub mod connection;
pub mod geometry;
pub mod message;
pub mod player;
pub mod queries;
pub mod queue;
pub mod state;
pub mod world;
