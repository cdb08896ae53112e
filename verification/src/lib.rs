//! Classic game-programming patterns as small verified building blocks.
//!
//! The centre of the crate is [`bytecode`], a stack machine for a flat
//! instruction stream. The other modules are compact renditions of further
//! patterns, each with its behaviour stated as a contract:
//!
//! - [`command`]: a move as a value that can be carried out and undone;
//! - [`component`]: entities as indices into arrays of components;
//! - [`double_buffer`]: a scene that draws into one buffer and shows the other;
//! - [`flyweight`]: a world of tiles that share a few terrains;
//! - [`game_loop`]: fixed update steps, whatever the length of a frame;
//! - [`observer`]: subjects that tell their observers of events;
//! - [`prototype`]: spawners that clone a monster;
//! - [`state`]: a heroine as a state machine, in two renditions;
//! - [`type_object`]: breeds that inherit from a parent.

pub mod bytecode;
pub mod command;
pub mod component;
pub mod double_buffer;
pub mod flyweight;
pub mod game_loop;
pub mod observer;
pub mod prototype;
pub mod state;
pub mod type_object;
