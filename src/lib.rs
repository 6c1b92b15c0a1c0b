//! Renders values as the text of compile-time constant declarations.
//!
//! Every supported value has a type expression and a literal expression
//! ([`CompileConst`]); a declaration puts the two together with a name, a
//! visibility and attributes. Values whose length is known only at run
//! time can also be declared as fixed-size arrays ([`CompileConstArray`]).
//! User-defined structs and enums describe their fields to the functions
//! of [`composite`] to get their literals and definitions.
pub mod address;
pub mod composite;
pub mod either_impl;
pub mod maps;
pub mod primitives;
pub mod protocol;
pub mod sequences;
pub mod text;
pub mod tuples;

pub use address::{IpAddr, Ipv4Addr, Ipv6Addr, SocketAddr, SocketAddrV4, SocketAddrV6};
pub use composite::{
    composite_type, enum_definition, struct_definition, struct_val, variant_val, Fields,
};
pub use protocol::{CompileConst, CompileConstArray, DeclarationType};
