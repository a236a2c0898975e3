//! Verified core of the Zenoh JNI bindings.
//!
//! The JNI entry points (in `app/`) decode Java values, hand plain values to
//! the functions of this crate, and write what these functions return back
//! into Java objects. Everything that decides something lives here.

pub mod advanced;
pub mod call;
pub mod config;
pub mod key_expr;
pub mod qos;
pub mod query;
pub mod reply;
pub mod session;
pub mod text;
pub mod zenoh_id;
