//! A minimal expression evaluator over a hand-rolled abstract syntax
//! tree with three node kinds: numeric literals, binary addition, and
//! a conditional. Trees are built either directly, constructor by
//! constructor, or through a compact prefix-notation shorthand that
//! expands to exactly the same trees.

pub mod ast;
pub mod shorthand;

pub use ast::eval;
pub use ast::AST;
pub use shorthand::expand;
pub use shorthand::Shorthand;
