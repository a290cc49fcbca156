//! The boundary between a scripting language and its host: conversions between values and host
//! types, and host functions that scripts can call.
//!
//! [`into_val::IntoVal`] and [`from_val::FromVal`] convert single values. [`wrap::wrap`] makes of a
//! host function of any signature one that takes a list of slots, by way of [`args::FromArg`] and
//! [`args_ref::FromArgRef`]. [`callable::CallableOps`] and [`call_args::IntoCallArgs`] serve calls
//! in the other direction.

pub mod args;
pub mod args_ref;
pub mod call_args;
pub mod callable;
mod callable_ops_private;
pub mod error;
pub mod from_map;
pub mod from_scalar;
pub mod from_seq;
pub mod from_text;
pub mod from_tuple;
pub mod from_val;
mod into_call_args_private;
pub mod into_map;
pub mod into_scalar;
pub mod into_seq;
pub mod into_text;
pub mod into_tuple;
pub mod into_val;
pub mod laws;
pub mod laws_args;
pub mod laws_heap;
pub mod laws_params;
pub mod laws_read;
pub mod laws_text;
pub mod laws_value;
pub mod laws_write;
pub mod limits;
pub mod lossless;
pub mod lossless_map;
pub mod marker;
pub mod message;
pub mod order;
pub mod rest;
pub mod slice_mut;
pub mod small;
pub mod store;
pub mod text;
pub mod value;
pub mod wrap;
