//! Operation-dispatch core for a remote agent-management API.
//!
//! Seven routers (agents, memory, tools, sources, jobs, files and folders,
//! external tool servers) each take one flat request: an operation
//! discriminator and a bag of optional fields.  A router validates the
//! request, names the backend call to make, and folds the backend's reply
//! into its response envelope.
//!
//! The crate performs no I/O.  A router is driven in steps:
//!
//! 1. `handle_*` takes the request.  It checks the fields that the operation
//!    requires, in order, then parses the identifier fields, in order, and
//!    returns the first [`backend::Step`]: a call for the caller to perform,
//!    with the state to resume from.  A request that fails validation, and an
//!    operation that the backend integration cannot perform, is an
//!    [`error::RouterError`]; no call is asked for.
//! 2. The caller performs the call and hands the outcome to `resume_*`: a
//!    [`backend::Reply`] in plain values, or a [`backend::BackendFailure`].
//! 3. `resume_*` returns the envelope, an error of the failure's class, or,
//!    for operations of several calls (bulk attach, bulk delete, clone,
//!    configuration read, usage search), the next call.
//!
//! The contracts are stated over models: [`json::JsonView`] for payloads,
//! character sequences for texts, and per-operation tables of required and
//! identifier fields ([`validate`]).  Each router module ends with the laws
//! that hold of it: an operation's name reads back as the operation, a
//! missing field or malformed identifier is refused before any call,
//! dispatch reaches the operation's own handler, and reading is repeatable.

pub mod agent;
pub mod backend;
pub mod bulk;
pub mod client;
pub mod envelope;
pub mod error;
pub mod field;
pub mod file_folder;
pub mod ident;
pub mod job;
pub mod json;
pub mod mcp;
pub mod memory;
pub mod settle;
pub mod source;
pub mod text;
pub mod tool;
pub mod validate;
