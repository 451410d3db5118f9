use vstd::prelude::*;
use core::sync::atomic::{AtomicU32, Ordering};

verus! {

/// The four registers that one CPU identification query returns.
#[derive(Clone, Copy, Debug, PartialEq, Eq, Structural)]
pub struct Cpuid {
    pub eax: u32,
    pub ebx: u32,
    pub ecx: u32,
    pub edx: u32,
}

/// The vendor string "GenuineIntel", as leaf 0 returns it in ebx, edx, ecx.
pub const INTEL_EBX: u32 = 0x756e_6547;
pub const INTEL_EDX: u32 = 0x4965_6e69;
pub const INTEL_ECX: u32 = 0x6c65_746e;
/// The vendor string "AuthenticAMD", as leaf 0 returns it in ebx, edx, ecx.
pub const AMD_EBX: u32 = 0x6874_7541;
pub const AMD_EDX: u32 = 0x6974_6e65;
pub const AMD_ECX: u32 = 0x444d_4163;

/// Bit `b` of `x`.
pub open spec fn bit(x: u32, b: u32) -> bool {
    (x >> b) & 1u32 == 1u32
}

/// Vendors whose CPUs with AVX perform aligned 16-byte vector loads and
/// stores atomically.
pub open spec fn vector_atomic_vendor(leaf0: Cpuid) -> bool {
    (leaf0.ebx == INTEL_EBX && leaf0.edx == INTEL_EDX && leaf0.ecx == INTEL_ECX) || (leaf0.ebx
        == AMD_EBX && leaf0.edx == AMD_EDX && leaf0.ecx == AMD_ECX)
}

/// Whether the vector flag depends on the extended control register: the
/// vendor qualifies and the CPU has XSAVE (bit 26) enabled by the OS
/// (OSXSAVE, bit 27). Only then may that register be read.
pub open spec fn xcr0_matters(leaf0: Cpuid, leaf1: Cpuid) -> bool {
    vector_atomic_vendor(leaf0) && bit(leaf1.ecx, 26) && bit(leaf1.ecx, 27)
}

/// A set of capability flags, packed in a word as the cache keeps it: bit 0
/// marks a record that was filled in, bit 1 the double-width
/// compare-and-exchange instruction, bit 2 atomic 16-byte vector access.
#[derive(Clone, Copy, Debug, PartialEq, Eq, Structural)]
pub struct CpuInfo {
    pub bits: u32,
}

pub const INIT: u32 = 1;
pub const HAS_CMPXCHG16B: u32 = 2;
pub const HAS_VMOVDQA_ATOMIC: u32 = 4;

impl CpuInfo {
    pub open spec fn word_of(self) -> u32 {
        self.bits
    }

    pub open spec fn is_init(self) -> bool {
        self.bits & INIT != 0
    }

    pub open spec fn cmpxchg16b(self) -> bool {
        self.bits & HAS_CMPXCHG16B != 0
    }

    pub open spec fn vmovdqa_atomic(self) -> bool {
        self.bits & HAS_VMOVDQA_ATOMIC != 0
    }

    /// A filled-in record with the given flags.
    pub fn from_flags(cmpxchg16b: bool, vmovdqa_atomic: bool) -> (r: CpuInfo)
        ensures
            r.is_init(),
            r.cmpxchg16b() == cmpxchg16b,
            r.vmovdqa_atomic() == vmovdqa_atomic,
    {
        let a: u32 = if cmpxchg16b { HAS_CMPXCHG16B } else { 0 };
        let b: u32 = if vmovdqa_atomic { HAS_VMOVDQA_ATOMIC } else { 0 };
        let bits = INIT | a | b;
        assert(((1u32 | a | b) & 1u32 != 0) && ((1u32 | a | b) & 2u32 != 0 <==> a == 2u32) && ((
        1u32 | a | b) & 4u32 != 0 <==> b == 4u32)) by (bit_vector)
            requires
                a == 0u32 || a == 2u32,
                b == 0u32 || b == 4u32,
        ;
        CpuInfo { bits }
    }

    /// Reads a cache word: the record it holds, or `None` while it is unset.
    pub fn from_word(w: u32) -> (r: Option<CpuInfo>)
        ensures
            w & INIT == 0 ==> r.is_none(),
            w & INIT != 0 ==> r == Some(CpuInfo { bits: w }),
    {
        if w & INIT != 0 {
            Some(CpuInfo { bits: w })
        } else {
            None
        }
    }

    /// The word under which the cache keeps this record.
    pub fn word(&self) -> (r: u32)
        ensures
            r == self.bits,
    {
        self.bits
    }

    /// Whether the CPU has the double-width compare-and-exchange instruction.
    pub fn has_cmpxchg16b(&self) -> (r: bool)
        ensures
            r == self.cmpxchg16b(),
    {
        self.bits & HAS_CMPXCHG16B != 0
    }

    /// Whether aligned 16-byte vector loads and stores are atomic.
    pub fn has_vmovdqa_atomic(&self) -> (r: bool)
        ensures
            r == self.vmovdqa_atomic(),
    {
        self.bits & HAS_VMOVDQA_ATOMIC != 0
    }

    /// The record that the answers of CPU identification leaves 0 and 1 give,
    /// with the extended control register where it was read. The wide
    /// compare-and-exchange is bit 13 of leaf 1's ecx. Atomic vector access
    /// needs a qualifying vendor, XSAVE enabled by the OS, the OS saving SSE
    /// and AVX state (bits 1 and 2 of the control register) and AVX (bit 28).
    pub fn from_cpuid(leaf0: Cpuid, leaf1: Cpuid, xcr0: Option<u64>) -> (r: CpuInfo)
        ensures
            r.is_init(),
            r.cmpxchg16b() == bit(leaf1.ecx, 13),
            r.vmovdqa_atomic() == (xcr0_matters(leaf0, leaf1) && bit(leaf1.ecx, 28) && match xcr0 {
                Some(x) => x & 6u64 == 6u64,
                None => false,
            }),
    {
        let cx16 = test_bit(leaf1.ecx, 13);
        let os_avx = match xcr0 {
            Some(x) => x & 6 == 6,
            None => false,
        };
        let vector = reads_xcr0(leaf0, leaf1) && os_avx && test_bit(leaf1.ecx, 28);
        CpuInfo::from_flags(cx16, vector)
    }
}

/// Bit `b` of `x`.
pub fn test_bit(x: u32, b: u32) -> (r: bool)
    requires
        b < 32,
    ensures
        r == bit(x, b),
{
    (x >> b) & 1 == 1
}

/// Whether the extended control register must be read to fill in a record:
/// reading it is only allowed where this holds.
pub fn reads_xcr0(leaf0: Cpuid, leaf1: Cpuid) -> (r: bool)
    ensures
        r == xcr0_matters(leaf0, leaf1),
{
    let intel = leaf0.ebx == INTEL_EBX && leaf0.edx == INTEL_EDX && leaf0.ecx == INTEL_ECX;
    let amd = leaf0.ebx == AMD_EBX && leaf0.edx == AMD_EDX && leaf0.ecx == AMD_ECX;
    (intel || amd) && test_bit(leaf1.ecx, 26) && test_bit(leaf1.ecx, 27)
}

/// Relies on the CPU identification instruction (`core::arch::x86_64::__cpuid`):
/// its answer depends on the machine, so nothing is stated of it.
#[verifier::external_body]
fn cpuid(leaf: u32) -> (r: Cpuid) {
    let c = core::arch::x86_64::__cpuid(leaf);
    Cpuid { eax: c.eax, ebx: c.ebx, ecx: c.ecx, edx: c.edx }
}

/// Queries leaves 0 and 1 of the CPU identification.
pub fn cpuid_leaves() -> (r: (Cpuid, Cpuid)) {
    (cpuid(0), cpuid(1))
}

/// Probes the CPU. The extended control register cannot be read here, so
/// the record leaves atomic vector access out; `CpuInfo::from_cpuid` takes
/// it where the caller could read it.
pub fn probe() -> (r: CpuInfo)
    ensures
        r.is_init(),
        !r.vmovdqa_atomic(),
{
    let (leaf0, leaf1) = cpuid_leaves();
    CpuInfo::from_cpuid(leaf0, leaf1, None)
}

/// What one call of the cached detector reports and leaves in the cache,
/// when it finds `word` there and a probe would answer `probed`.
pub open spec fn detect_step(word: u32, probed: CpuInfo) -> (u32, CpuInfo) {
    if word & INIT != 0 {
        (word, CpuInfo { bits: word })
    } else {
        (probed.word_of(), probed)
    }
}

/// Detection is idempotent under races: every call, whether it finds the
/// cache unset or already filled by some other first call, reports the
/// probe's answer and leaves exactly that answer cached.
pub proof fn lemma_detect_idempotent(word: u32, probed: CpuInfo)
    requires
        probed.is_init(),
        word == 0 || word == probed.word_of(),
    ensures
        detect_step(word, probed) == (probed.word_of(), probed),
        detect_step(detect_step(word, probed).0, probed) == detect_step(word, probed),
{
    assert(0u32 & 1u32 == 0u32) by (bit_vector);
}

/// The capability cache: probed at the first call, then read back.
pub struct Detector {
    cache: AtomicU32,
}

impl Detector {
    /// A detector that has not probed yet.
    pub fn new() -> (r: Detector) {
        Detector { cache: AtomicU32::new(0) }
    }

    /// The capability record: from the cache where it is filled in, else
    /// from a fresh probe that is then cached. Concurrent first calls may
    /// each probe; they store the same word.
    pub fn detect(&self) -> (r: CpuInfo)
        ensures
            r.is_init(),
    {
        let word = self.cache.load(Ordering::Relaxed);
        let probed = match CpuInfo::from_word(word) {
            Some(info) => info,
            None => probe(),
        };
        self.settle(word, probed)
    }

    /// The capability record: from the cache where it is filled in, else
    /// `computed`, a record the caller made (say with the extended control
    /// register, which `probe` cannot read), which is then cached.
    pub fn detect_or_fill(&self, computed: CpuInfo) -> (r: CpuInfo)
        requires
            computed.is_init(),
        ensures
            r.is_init(),
    {
        let word = self.cache.load(Ordering::Relaxed);
        self.settle(word, computed)
    }

    /// Takes one detection step from the cache word `word` and stores the
    /// word it leaves where that differs.
    fn settle(&self, word: u32, probed: CpuInfo) -> (r: CpuInfo)
        requires
            probed.is_init(),
        ensures
            r == detect_step(word, probed).1,
            r.is_init(),
    {
        let (next, info) = detect_next(word, probed);
        if next != word {
            self.cache.store(next, Ordering::Relaxed);
        }
        info
    }
}

/// One call of the cached detector: what it reports and what it leaves in
/// the cache, given the word it found and what a probe answers.
pub fn detect_next(word: u32, probed: CpuInfo) -> (r: (u32, CpuInfo))
    ensures
        r == detect_step(word, probed),
{
    match CpuInfo::from_word(word) {
        Some(info) => (word, info),
        None => (probed.word(), probed),
    }
}

} // verus!
