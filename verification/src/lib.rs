//! An immutable, shareable singly-linked list of 64-bit integers, with a
//! verified summing traversal.
//!
//! A node is built once and never changes afterwards. Nodes are held through
//! `Arc`, so several lists may share one tail and several threads may read one
//! list without locking.

pub mod node;
pub mod sum;
