//! A linear-constraint toolkit layered over the Cassowary solver: relational
//! operators, named strengths, error reporting and the solver front end that keeps
//! track of the variables its constraints mention.
pub mod text;
pub mod error;
pub mod relation;
pub mod strength;
pub mod solver;
pub mod variable;
