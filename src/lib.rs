//! A compiler core for a small typed functional language whose tagged unions
//! hide their discriminant in unused values ("niches") of a payload field.

pub mod debruijn;
pub mod eval;
pub mod hir;
pub mod layout;
pub mod layout_of;
pub mod lir;
pub mod list;
pub mod lower;
pub mod name;
pub mod niches;
pub mod parser;
pub mod pipeline;
pub mod util;
