//! A userspace model of the kernel's submission and completion rings, with
//! the producer, consumer and submit/wait rules proved.
//!
//! The library holds both rings as plain values and never touches shared
//! memory or the kernel itself. Its caller mirrors the kernel's words into
//! it (`observe`, `post`), runs the protocol on it, carries out the stores
//! and system calls that it asks for, and reports back how they ended.

#![allow(non_camel_case_types)]
#![allow(non_upper_case_globals)]

use vstd::prelude::*;

pub mod cqueue;
pub mod error;
pub mod index;
pub mod io_uring;
pub mod laws;
pub mod ring;
pub mod squeue;
pub mod util;

verus! {

/// The ring with narrow submission and completion entries.
pub type RSRing = ring::ring::Ring<[u64; 2], [u8; 0]>;

} // verus!
