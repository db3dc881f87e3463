//! Bootstrap and lifecycle decisions for a Windows pseudo-console session.
//!
//! The library holds what a pseudo-console launch decides: which console
//! entry points to use, how a terminal size maps onto the console geometry,
//! the order of the launch steps and when one of them is fatal, and which
//! calls a live session makes on resize and teardown. The host calls
//! themselves are made by the embedding program, which reports their outcome
//! back as plain values.
pub mod capability;
pub mod geometry;
pub mod launch;
pub mod session;
