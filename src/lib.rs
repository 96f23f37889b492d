//! A small language toolchain built around type inference.
//!
//! The heart of the crate is the inference engine: every node of the annotated syntax
//! tree carries a type that may be `Unknown`, and inference refines these annotations
//! in place, by repeated local propagation, until every node is resolved or the
//! program is shown to be ill-typed (`types`, `env`, `infer`).
//!
//! Around it stand the parser of the annotated syntax (`parser`), type erasure to an
//! unannotated tree with its own parser and evaluator (`untyped`, `untyped_parser`,
//! `erasure`, `tree_interpreter`), an untyped surface language with its interpreter
//! (`surface`, `surface_parser`, `interpreter`), a lower-level representation of
//! programs (`ir`), and the instruction encoding of a small stack machine (`opcode`).
pub mod ast;
pub mod env;
pub mod erasure;
pub mod error;
pub mod infer;
pub mod interpreter;
pub mod ir;
pub mod opcode;
pub mod parser;
pub mod rules;
pub mod scan;
pub mod surface;
pub mod surface_parser;
pub mod text;
pub mod tree_interpreter;
pub mod types;
pub mod untyped;
pub mod untyped_parser;

pub use error::InferError;
pub use infer::infer_types;
pub use parser::parse;
