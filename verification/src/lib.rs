//! Generation of the two Redis adapters of a type: the implementation of
//! `redis::FromRedisValue` that decodes a stored byte blob with a serde codec,
//! and the implementation of `redis::ToRedisArgs` that encodes a value with it.
//!
//! A request is a [`descriptor::TypeDescriptor`]. The codec is read from the
//! type's attributes ([`config`]), the `where` clause of the generated impl is
//! composed from its generics ([`bounds`]), and the impl itself is kept as a
//! [`adapter::GeneratedAdapter`] whose `render` gives the source text.
//! [`response`] states what a generated decode adapter answers at run time.

pub mod adapter;
pub mod bounds;
pub mod config;
pub mod descriptor;
pub mod response;
pub mod text;

pub use adapter::{from_redis_value_macro, to_redis_args_macro};
