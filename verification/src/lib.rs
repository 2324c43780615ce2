//! Parsing of YANG (RFC 7950) syntax trees into a model, loading of the
//! modules and submodules that a module names, and resolution of `uses`
//! references against the groupings they name.
//!
//! The grammar engine and the file system are not part of this library: it
//! takes the syntax tree of each file as a [`ParseTree`]. [`ModuleLoader`]
//! says step by step which file a load needs next; [`parse`] loads from
//! files that are held in memory.

pub mod codegen;
pub mod complete;
pub mod error;
pub mod finite;
pub mod grammar;
pub mod idempotent;
pub mod keys;
pub mod load;
pub mod merge;
pub mod module_loader;
pub mod parser;
pub mod path;
pub mod resolution;
pub mod resolved;
pub mod resolver;
pub mod restrictions;
pub mod scoping;
pub mod statements;
pub mod submodules;
pub mod text;
pub mod tree;
pub mod type_info;
pub mod values;
pub mod walk;
pub mod yang;

pub use crate::error::ParserError;
pub use crate::grammar::Rule;
pub use crate::load::{parse, SourceFile};
pub use crate::module_loader::ModuleLoader;
pub use crate::parser::YangParser;
pub use crate::resolver::ReferenceResolver;
pub use crate::tree::ParseTree;
