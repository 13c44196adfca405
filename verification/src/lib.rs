//! Front-end data structures of the Luna compiler.
pub mod ast;
pub mod ast_dump;
pub mod candidate;
pub mod errors;
pub mod hir_common;
pub mod hir_id;
pub mod hir_id_order;
pub mod hir_intern;
pub mod hir_same;
pub mod idx;
pub mod intrinsic;
pub mod literal;
pub mod lower;
pub mod luna_hir;
pub mod node_kind;
pub mod query;
pub mod source;
pub mod scope;
pub mod span;
pub mod symbol;
pub mod sysroot;
pub mod text;
pub mod ty;
