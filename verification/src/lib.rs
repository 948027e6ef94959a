//! Adaptive concurrency control for JSON-RPC clients.
//!
//! `adaptive_concurrency` holds the controller that scales request concurrency, batch size and
//! backoff with the outcome of requests. `layer_extensions` holds what an RPC middleware decides
//! about each call: its label, its delay, and what its outcome means for the controller.
//! `model` states the controller's transitions mathematically, `transition_laws` what each of them
//! does in numbers, and `laws` proves what holds of them over whole histories. `text_laws` says
//! what the searches in messages find.

pub mod adaptive_concurrency;
pub mod clock;
pub mod laws;
pub mod layer_extensions;
pub mod model;
pub mod rpc_errors;
pub mod text;
pub mod text_laws;
pub mod transition_laws;
