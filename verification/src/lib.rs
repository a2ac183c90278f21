//! A minimal boot stub library: the compile-time control structures and the
//! mode-transition computations that carry an x86 processor from its reset
//! state through protected mode into 64-bit long mode.
//!
//! The library builds the two data structures the transition depends on — a
//! global descriptor table with stable selectors, and a multi-level page
//! table identity-mapping a configurable physical range — and computes the
//! register values and address arithmetic of each transition stage.  The
//! instruction sequences that load these values into the processor are the
//! thin hardware layer around this library; everything that can be stated as
//! a function from values to values is here, with its contract.

pub mod entry;
pub mod gdt;
pub mod paging;
pub mod stage;
pub mod table;
