//! Machine-mode firmware core for a RISC-V multi-hart platform.
//!
//! The crate models and verifies the three pieces of the firmware whose
//! bit-level behaviour must be exact: the core-local interrupt timer device
//! (`clint`), the trap dispatcher with its minimal Supervisor Binary
//! Interface call table (`trap`), and the one-shot machine-mode to
//! supervisor-mode privilege bootstrap (`boot`).
//!
//! Hardware access itself (volatile device registers, control and status
//! registers, the privilege-transition instruction) lives outside this
//! crate; the functions here compute exactly what must be written where,
//! and their contracts pin those values down.

pub mod boot;
pub mod clint;
pub mod trap;
