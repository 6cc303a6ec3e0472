//! Generation engine for an unbounded first-person text stream.
//!
//! The engine drives a language model until it either exhausts its context
//! capacity or hits an explicit generation cap, while actively resisting
//! degenerate repetition.  The inference runtime, the CLI, model
//! acquisition and the file sink are external collaborators; the decision
//! logic lives here, verified: the sampling pipeline plan, the context
//! budget and its exhaustion threshold, the repetition guard, the anchor
//! injector and the generation loop controller.

pub mod anchor;
pub mod budget;
pub mod config;
pub mod engine;
pub mod guard;
pub mod output;
pub mod prompt;
pub mod sampler;
pub mod window;
