//! Fields of configuration data whose text form may refer to variables.
//!
//! An [`EnvField`] is decoded from a value of any shape. Text is expanded
//! first (`$NAME`, `${NAME}` and `${NAME:-default}` are replaced by the values
//! of the variables in an [`environment::Environment`]) and the field is
//! constructed from the expanded text; a value of any other shape is handed to
//! the construction of the inner type as it is. On the way out the wrapper
//! leaves no trace: a field is written exactly as its inner value is.
//!
//! [`env_field_wrap`] rewrites the description of a struct or an enum so that
//! each of its fields takes the wrapper type: `X` becomes `EnvField<X>`,
//! `Option<X>` and `Vec<X>` become `Option<EnvField<X>>` and
//! `Vec<EnvField<X>>`, and the directives `skip` and `generics_only` on a
//! field or a variant override this.
//!
//! The modules:
//! - [`field`], [`ops`], [`assign`], [`compare`]: the wrapper and what it
//!   forwards to the value it holds;
//! - [`value`], [`environment`], [`expand`], [`decode`], [`coerce`]: values,
//!   variables, expansion and the decoding of a field;
//! - [`construct`], [`integers`]: construction of the common inner types;
//! - [`schema`], [`classify`], [`directive`], [`transform`], [`rewrite`]: the
//!   description of a schema and its rewrite;
//! - [`decode_laws`], [`schema_laws`]: what holds of all of this in general.

pub mod assign;
pub mod classify;
pub mod coerce;
pub mod compare;
pub mod construct;
pub mod decode;
pub mod decode_laws;
pub mod directive;
pub mod environment;
pub mod expand;
pub mod field;
pub mod integers;
pub mod ops;
pub mod rewrite;
pub mod schema;
pub mod schema_laws;
pub mod transform;
pub mod util;
pub mod value;

pub use crate::field::{EnvField, UseDeserialize, UseFromStr};
pub use crate::rewrite::env_field_wrap;
