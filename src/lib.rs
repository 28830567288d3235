//! Structural extraction from parsed stream-monitoring specifications.
//!
//! The library holds its own model of a specification's syntax tree
//! ([`model`]), renders expressions to infix text ([`expr`]), projects a
//! specification onto a flat record of inputs, comparison outputs and
//! triggers ([`projection`]), and turns a parse outcome into an extraction
//! outcome ([`boundary`]).
pub mod expr;
pub mod model;
pub mod projection;
pub mod boundary;
