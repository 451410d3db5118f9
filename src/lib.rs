//! A double-width (128-bit) atomic integer: the semantics of every
//! operation, the register-pair instruction sequences that implement them,
//! the memory-ordering policy, CPU capability detection and backend dispatch.

pub mod arith;
pub mod atomic;
pub mod cpuinfo;
pub mod dispatch;
pub mod dword;
pub mod ordering;
pub mod pair;
pub mod rmw;

pub use atomic::{is_always_lock_free, is_lock_free, AtomicI128, AtomicU128};
pub use cpuinfo::{CpuInfo, Cpuid, Detector};
pub use dispatch::{AccessPath, Backend, DispatchSlot};
pub use pair::Pair;
pub use rmw::{CasRequest, RmwOp, UpdateStep};
