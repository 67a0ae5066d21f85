//! Random creature-instance generation over a fixed species catalog.
//!
//! Given a game title and a few probability parameters, the library draws
//! species, moves, abilities and attributes for a batch of instances while
//! respecting which catalog entries exist in the game's generation.
//!
//! Every function that consumes randomness is split in two layers: a thin
//! layer that obtains draws from the generator, and deterministic functions
//! that turn draws into decisions. The contracts of the first layer state
//! what holds for every possible draw; the contracts of the second are exact.
//!
//! - [`models`]: the catalog, the generated instance, and their views.
//! - [`generation`]: generations, and the tables from titles and tags to them.
//! - [`dice`]: the calls into `rand`, whose contracts are taken on trust.
//! - [`chance`], [`pools`]: percent chances and draws without replacement.
//! - [`species`], [`moves`], [`abilities`], [`attributes`]: the parts of an
//!   instance.
//! - [`randgen`], [`batch`]: one instance, and a batch under a size ceiling.

pub mod text;
pub mod generation;
pub mod models;
pub mod dice;
pub mod error;
pub mod chance;
pub mod pools;
pub mod moves;
pub mod abilities;
pub mod species;
pub mod attributes;
pub mod randgen;
pub mod batch;
