//! Streaming image-decode sessions with verified state machines.
//!
//! The heart of this crate is a resumable decode session for PNG and BMP
//! images: a caller feeds bytes as they become available, and every decode
//! operation either completes, reports that the input seen so far is not yet
//! sufficient, or fails terminally.  The session tracks decode progress so
//! that no work is lost between attempts, and hands completed pixel rows to
//! the caller exactly once, in a well-defined order.

pub mod adam7;
pub mod bmp;
pub mod fonts;
pub mod hype;
pub mod icc;
pub mod phase;
pub mod png;
pub mod result;
pub mod rows;
pub mod source;
pub mod text;
