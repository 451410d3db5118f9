use vstd::prelude::*;
use core::sync::atomic::{AtomicU8, Ordering};
use crate::cpuinfo::{CpuInfo, Detector};

verus! {

/// Whether the build target guarantees the double-width compare-and-exchange
/// instruction (the default x86-64 target does not).
pub const STATIC_CMPXCHG16B: bool = false;

/// The implementation behind compare-and-swap and read-modify-write.
#[derive(Clone, Copy, Debug, PartialEq, Eq, Structural)]
pub enum Backend {
    /// The double-width compare-and-exchange instruction.
    Native,
    /// The lock table with a validated byte-wise load.
    Fallback,
}

/// The implementation behind load and store.
#[derive(Clone, Copy, Debug, PartialEq, Eq, Structural)]
pub enum AccessPath {
    /// Plain aligned 16-byte vector moves, which the vendor documents as atomic.
    Vector,
    /// The compare-and-swap backend.
    Cas,
}

/// The backend that compare-and-swap resolves to: native where the build
/// guarantees the instruction or the CPU reports it, else the fallback.
pub open spec fn backend_of(static_cx16: bool, info: CpuInfo) -> Backend {
    if static_cx16 || info.cmpxchg16b() {
        Backend::Native
    } else {
        Backend::Fallback
    }
}

/// The path that load and store resolve to: the vector path only where the
/// compare-and-exchange instruction is there too, so that a cell is never
/// reached both by atomic vector moves and through the lock table.
pub open spec fn access_path_of(info: CpuInfo) -> AccessPath {
    if info.cmpxchg16b() && info.vmovdqa_atomic() {
        AccessPath::Vector
    } else {
        AccessPath::Cas
    }
}

/// Whether operations are lock-free: the native backend is guaranteed or
/// detected.
pub open spec fn lock_free_of(static_cx16: bool, info: CpuInfo) -> bool {
    static_cx16 || info.cmpxchg16b()
}

/// Chooses the compare-and-swap backend.
pub fn select_backend(static_cx16: bool, info: CpuInfo) -> (r: Backend)
    ensures
        r == backend_of(static_cx16, info),
{
    if static_cx16 || info.has_cmpxchg16b() {
        Backend::Native
    } else {
        Backend::Fallback
    }
}

/// Chooses the load and store path.
pub fn select_access_path(info: CpuInfo) -> (r: AccessPath)
    ensures
        r == access_path_of(info),
{
    if info.has_cmpxchg16b() && info.has_vmovdqa_atomic() {
        AccessPath::Vector
    } else {
        AccessPath::Cas
    }
}

/// Whether operations are lock-free for the given capabilities.
pub fn is_lock_free_with(static_cx16: bool, info: CpuInfo) -> (r: bool)
    ensures
        r == lock_free_of(static_cx16, info),
        r <==> select_backend_is_native(static_cx16, info),
{
    static_cx16 || info.has_cmpxchg16b()
}

pub open spec fn select_backend_is_native(static_cx16: bool, info: CpuInfo) -> bool {
    backend_of(static_cx16, info) == Backend::Native
}

/// The lock-freedom flag agrees with dispatch: it holds exactly where the
/// native backend is chosen, and the vector path is only chosen then.
pub proof fn lemma_lock_free_iff_native(static_cx16: bool, info: CpuInfo)
    ensures
        lock_free_of(static_cx16, info) <==> backend_of(static_cx16, info) == Backend::Native,
        access_path_of(info) == AccessPath::Vector ==> backend_of(static_cx16, info)
            == Backend::Native,
{
}

/// The word that a dispatch slot holds once it resolved to `b`.
pub open spec fn slot_word(b: Backend) -> u8 {
    match b {
        Backend::Native => 1,
        Backend::Fallback => 2,
    }
}

/// What one call through a dispatch slot uses and leaves in the slot, when
/// it finds `word` there and resolution would choose `chosen`.
pub open spec fn slot_step(word: u8, chosen: Backend) -> (u8, Backend) {
    if word == 1 {
        (word, Backend::Native)
    } else if word == 2 {
        (word, Backend::Fallback)
    } else {
        (slot_word(chosen), chosen)
    }
}

/// Reads a slot word: the backend it resolved to, or `None` while unresolved.
pub fn decode_slot(word: u8) -> (r: Option<Backend>)
    ensures
        word == 1 ==> r == Some(Backend::Native),
        word == 2 ==> r == Some(Backend::Fallback),
        word != 1 && word != 2 ==> r.is_none(),
{
    if word == 1 {
        Some(Backend::Native)
    } else if word == 2 {
        Some(Backend::Fallback)
    } else {
        None
    }
}

/// The word that records a resolution to `b`.
pub fn encode_slot(b: Backend) -> (r: u8)
    ensures
        r == slot_word(b),
        decode_slot_spec(r) == Some(b),
{
    match b {
        Backend::Native => 1,
        Backend::Fallback => 2,
    }
}

pub open spec fn decode_slot_spec(word: u8) -> Option<Backend> {
    if word == 1 {
        Some(Backend::Native)
    } else if word == 2 {
        Some(Backend::Fallback)
    } else {
        None
    }
}

/// Resolution is once and for all: since every resolution of a slot chooses
/// from the same capabilities, a call that finds the slot unresolved or
/// already resolved by another thread uses the same backend, and leaves
/// the slot as every other call leaves it.
pub proof fn lemma_slot_agrees(word: u8, chosen: Backend)
    requires
        word == 0 || word == slot_word(chosen),
    ensures
        slot_step(word, chosen) == (slot_word(chosen), chosen),
{
}

/// A lazily resolved choice of backend for one operation.
pub struct DispatchSlot {
    word: AtomicU8,
}

impl DispatchSlot {
    /// A slot that has not resolved yet.
    pub fn new() -> (r: DispatchSlot) {
        DispatchSlot { word: AtomicU8::new(0) }
    }

    /// The backend to use. Where the build guarantees the instruction, that
    /// is the native backend, and the slot is not consulted. Otherwise it is
    /// the one recorded in the slot, or, on the first call, the one chosen
    /// from the detector's record, which is then recorded.
    pub fn resolve(&self, static_cx16: bool, detector: &Detector) -> (r: Backend)
        ensures
            static_cx16 ==> r == Backend::Native,
    {
        if static_cx16 {
            return Backend::Native;
        }
        let word = self.word.load(Ordering::Relaxed);
        let chosen = match decode_slot(word) {
            Some(b) => b,
            None => select_backend(false, detector.detect()),
        };
        let (next, b) = slot_next(word, chosen);
        if next != word {
            self.word.store(next, Ordering::Relaxed);
        }
        b
    }
}

/// One call through a dispatch slot: what it uses and what it leaves in the
/// slot, given the word it found and the backend that resolution chooses.
pub fn slot_next(word: u8, chosen: Backend) -> (r: (u8, Backend))
    ensures
        r == slot_step(word, chosen),
{
    match decode_slot(word) {
        Some(b) => (word, b),
        None => (encode_slot(chosen), chosen),
    }
}

/// The number of stripes in the lock table.
pub const LOCK_STRIPES: usize = 67;

/// The lock stripe that guards the cell at `addr`: cells are 16 bytes, so
/// the low four bits carry nothing and are dropped before hashing.
pub fn stripe_index(addr: usize) -> (r: usize)
    ensures
        r == (addr / 16) % LOCK_STRIPES,
        r < LOCK_STRIPES,
{
    let shifted = addr >> 4;
    assert(shifted == addr / 16) by (bit_vector)
        requires
            shifted == addr >> 4,
    ;
    shifted % LOCK_STRIPES
}

} // verus!
