//! Entity definition compiler for the `nebula` project scaffolding tool.
//!
//! The heart of the crate is a small description language for entity
//! definitions: a comma-separated list of field fragments such as
//! `name:String|required,email:String|unique,author->belongsTo:User`.
//! The library parses those fragments into a typed model, validates the
//! declared types and validation rules, and renders the model into
//! deterministic generated source text together with an idempotent
//! module-index registration line.

#![verifier::loop_isolation(false)]

use vstd::prelude::*;

pub mod commands;
pub mod errors;
pub mod field;
pub mod generator;
pub mod rules;
pub mod scaffold;
pub mod strutil;
pub mod template;
pub mod templating;
pub mod tools;
pub mod types;
