//! The fixed lexical tables: reserved words, punctuation, operators,
//! comparators, logical connectives, primitive type names and comment markers.

pub mod comments;
pub mod comparators;
pub mod keywords;
pub mod logicals;
pub mod operators;
pub mod symbols;
pub mod types;

pub use comments::Comment;
pub use comparators::Comparator;
pub use keywords::Keyword;
pub use logicals::Logical;
pub use operators::Operator;
pub use symbols::Symbol;
pub use types::Type;
