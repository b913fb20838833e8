//! The syntax tree of a small language for networked embedded devices, and a
//! traversal over it that compiler passes share.
//!
//! A program declares global variables, packet record types, per-device
//! snippets of guarded assignments, and connections between snippets.
//!
//! - [`grammar`] holds the nodes of the tree, [`model`] their mathematical
//!   view, and [`equality`] the comparison of trees.
//! - [`tree_fold`] holds the traversal: a visit for each kind of node, which
//!   a pass may override. What it guarantees is stated over [`identifiers`],
//!   the identifiers of a tree in the order in which they are written, and
//!   [`in_turn`], what it is to go through them one after the other.
//! - [`symbol_table_pass`] holds the pass that collects every identifier
//!   name.

pub mod equality;
pub mod grammar;
pub mod identifiers;
pub mod in_turn;
pub mod model;
pub mod symbol_table_pass;
pub mod tree_fold;
