//! Fixed-capacity last-in-first-out stacks, in two variants with one contract.
//!
//! - [`stack_safe::FixedStack`] keeps its elements in a growable `Vec` and
//!   enforces the capacity itself.
//! - [`stack_unsafe::FixedStack`] owns exactly `capacity` slots allocated once
//!   at construction and tracks how many of them are initialized; only the
//!   slots below that count hold a value, and only they are ever read or
//!   destroyed.
//!
//! Both present their contents as a `Seq<T>` (bottom first, top last), and
//! their operations are specified over that view, so the two variants are
//! interchangeable for any caller. [`model`] states what sequences of
//! operations do to that view and proves the laws of a bounded stack;
//! [`differential`] drives both variants through one sequence side by side.

pub mod differential;
pub mod model;
pub mod stack_safe;
pub mod stack_unsafe;
