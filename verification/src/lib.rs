//! Small, self-contained building blocks: a single-slot value container,
//! an event publisher with ordered listener lists, and a tiny expression
//! tree with a visitor that evaluates it.

pub mod cell;
pub mod observer;
pub mod visitor;
