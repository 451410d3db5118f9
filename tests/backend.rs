use std::sync::atomic::Ordering;
use std::sync::atomic::Ordering::{AcqRel, Acquire, Relaxed, Release, SeqCst};

use atomic128::cpuinfo::{detect_next, probe, reads_xcr0, test_bit};
use atomic128::dispatch::{
    decode_slot, encode_slot, slot_next, is_lock_free_with, select_access_path, select_backend, stripe_index,
    LOCK_STRIPES,
};
use atomic128::dword;
use atomic128::ordering::{
    is_valid_compare_exchange_ordering, is_valid_load_ordering, is_valid_store_ordering,
    strongest_failure_ordering, upgrade_success_ordering, vector_store_needs_fence,
};
use atomic128::rmw::{apply, cmpxchg16b, compare_exchange_value, update_next, update_start, validated_load};
use atomic128::{AccessPath, Backend, CasRequest, CpuInfo, Cpuid, Detector, DispatchSlot, Pair, RmwOp, UpdateStep};

const INTEL: Cpuid = Cpuid { eax: 0x16, ebx: 0x756e_6547, ecx: 0x6c65_746e, edx: 0x4965_6e69 };
const AMD: Cpuid = Cpuid { eax: 0x10, ebx: 0x6874_7541, ecx: 0x444d_4163, edx: 0x6974_6e65 };
const OTHER: Cpuid = Cpuid { eax: 0x10, ebx: 1, ecx: 2, edx: 3 };

fn leaf1(ecx: u32) -> Cpuid {
    Cpuid { eax: 0, ebx: 0, ecx, edx: 0 }
}

#[test]
fn failure_ordering_drops_release() {
    assert_eq!(strongest_failure_ordering(Ordering::Relaxed), Ordering::Relaxed);
    assert_eq!(strongest_failure_ordering(Ordering::Release), Ordering::Relaxed);
    assert_eq!(strongest_failure_ordering(Ordering::Acquire), Ordering::Acquire);
    assert_eq!(strongest_failure_ordering(Ordering::AcqRel), Ordering::Acquire);
    assert_eq!(strongest_failure_ordering(Ordering::SeqCst), Ordering::SeqCst);
}

#[test]
fn success_ordering_is_raised_to_failure() {
    assert_eq!(upgrade_success_ordering(Relaxed, Relaxed), Relaxed);
    assert_eq!(upgrade_success_ordering(Relaxed, Acquire), Acquire);
    assert_eq!(upgrade_success_ordering(Relaxed, SeqCst), SeqCst);
    assert_eq!(upgrade_success_ordering(Release, Relaxed), Release);
    assert_eq!(upgrade_success_ordering(Release, Acquire), AcqRel);
    assert_eq!(upgrade_success_ordering(Release, SeqCst), SeqCst);
    assert_eq!(upgrade_success_ordering(Acquire, Acquire), Acquire);
    assert_eq!(upgrade_success_ordering(AcqRel, Relaxed), AcqRel);
    assert_eq!(upgrade_success_ordering(AcqRel, SeqCst), SeqCst);
    assert_eq!(upgrade_success_ordering(SeqCst, Relaxed), SeqCst);
}

#[test]
fn ordering_validity() {
    assert!(is_valid_load_ordering(Acquire));
    assert!(!is_valid_load_ordering(Release));
    assert!(!is_valid_load_ordering(AcqRel));
    assert!(is_valid_store_ordering(Release));
    assert!(!is_valid_store_ordering(Acquire));
    assert!(!is_valid_store_ordering(AcqRel));
    assert!(is_valid_compare_exchange_ordering(AcqRel, Acquire));
    assert!(!is_valid_compare_exchange_ordering(SeqCst, Release));
    assert!(!is_valid_compare_exchange_ordering(Relaxed, AcqRel));
    assert!(vector_store_needs_fence(SeqCst));
    assert!(!vector_store_needs_fence(Release));
    assert!(!vector_store_needs_fence(Relaxed));
}

#[test]
fn pair_split_and_join() {
    let p = Pair::split(0x0123_4567_89ab_cdef_fedc_ba98_7654_3210);
    assert_eq!(p, Pair { lo: 0xfedc_ba98_7654_3210, hi: 0x0123_4567_89ab_cdef });
    assert_eq!(p.join(), 0x0123_4567_89ab_cdef_fedc_ba98_7654_3210);
    assert_eq!(Pair { lo: 1, hi: 2 }.join(), (2u128 << 64) | 1);
}

#[test]
fn two_word_arithmetic() {
    let a = Pair { lo: u64::MAX, hi: 0 };
    let one = Pair { lo: 1, hi: 0 };
    assert_eq!(dword::add(a, one), Pair { lo: 0, hi: 1 });
    assert_eq!(dword::sub(Pair { lo: 0, hi: 1 }, one), a);
    assert_eq!(dword::neg(one), Pair { lo: u64::MAX, hi: u64::MAX });
    assert_eq!(dword::neg(Pair { lo: 0, hi: 1 }), Pair { lo: 0, hi: u64::MAX });
    assert_eq!(dword::not(Pair { lo: 0, hi: u64::MAX }), Pair { lo: u64::MAX, hi: 0 });
    assert_eq!(dword::nand(Pair { lo: 6, hi: 1 }, Pair { lo: 3, hi: 1 }), Pair { lo: !2, hi: !1 });
}

#[test]
fn two_word_comparisons() {
    let minus_one = Pair { lo: u64::MAX, hi: u64::MAX };
    let one = Pair { lo: 1, hi: 0 };
    assert!(dword::lt_signed(minus_one, one));
    assert!(!dword::lt_unsigned(minus_one, one));
    assert!(dword::lt_unsigned(Pair { lo: 5, hi: 0 }, Pair { lo: 0, hi: 1 }));
    assert!(dword::lt_signed(Pair { lo: 5, hi: u64::MAX }, Pair { lo: 6, hi: u64::MAX }));
    assert_eq!(dword::max(one, minus_one), one);
    assert_eq!(dword::umax(one, minus_one), minus_one);
    assert_eq!(dword::min(one, minus_one), minus_one);
    assert_eq!(dword::umin(one, minus_one), one);
}

#[test]
fn apply_each_operation() {
    assert_eq!(apply(RmwOp::Swap, 1, 2), 2);
    assert_eq!(apply(RmwOp::Add, u128::MAX, 1), 0);
    assert_eq!(apply(RmwOp::Sub, 0, 1), u128::MAX);
    assert_eq!(apply(RmwOp::And, 0b1100, 0b1010), 0b1000);
    assert_eq!(apply(RmwOp::Nand, 0b1100, 0b1010), !0b1000u128);
    assert_eq!(apply(RmwOp::Or, 0b1100, 0b1010), 0b1110);
    assert_eq!(apply(RmwOp::Xor, 0b1100, 0b1010), 0b0110);
    assert_eq!(apply(RmwOp::Max, u128::MAX, 3), 3);
    assert_eq!(apply(RmwOp::UMax, u128::MAX, 3), u128::MAX);
    assert_eq!(apply(RmwOp::Min, u128::MAX, 3), u128::MAX);
    assert_eq!(apply(RmwOp::UMin, u128::MAX, 3), 3);
    assert_eq!(apply(RmwOp::Not, 0, 9), u128::MAX);
    assert_eq!(apply(RmwOp::Neg, 2, 9), u128::MAX - 1);
}

#[test]
fn cmpxchg16b_instruction_step() {
    let mem = Pair { lo: 1, hi: 2 };
    let hit = cmpxchg16b(mem, Pair { lo: 1, hi: 2 }, Pair { lo: 7, hi: 8 });
    assert!(hit.zf);
    assert_eq!(hit.mem, Pair { lo: 7, hi: 8 });
    assert_eq!(hit.prev, mem);
    let miss = cmpxchg16b(mem, Pair { lo: 1, hi: 3 }, Pair { lo: 7, hi: 8 });
    assert!(!miss.zf);
    assert_eq!(miss.mem, mem);
    assert_eq!(miss.prev, mem);
}

#[test]
fn compare_exchange_on_values() {
    assert_eq!(compare_exchange_value(100, 100, 200), (200, Ok(100)));
    assert_eq!(compare_exchange_value(200, 100, 200), (200, Err(200)));
}

#[test]
fn torn_snapshot_is_corrected_by_validation() {
    let cur = (1u128 << 64) | 1;
    let torn = (2u128 << 64) | 1;
    let (next, outcome) = compare_exchange_value(cur, torn, torn);
    assert_eq!(next, cur);
    assert_eq!(validated_load(outcome), cur);
    let (next, outcome) = compare_exchange_value(cur, cur, cur);
    assert_eq!(next, cur);
    assert_eq!(validated_load(outcome), cur);
}

#[test]
fn retry_loop_recovers_from_a_stale_seed() {
    let req = update_start(RmwOp::Add, 5, 10);
    assert_eq!(req, CasRequest { expected: 10, new: 15 });
    let (_, outcome) = compare_exchange_value(12, req.expected, req.new);
    let step = update_next(RmwOp::Add, 5, outcome);
    assert_eq!(step, UpdateStep::Retry(CasRequest { expected: 12, new: 17 }));
    let (next, outcome) = compare_exchange_value(12, 12, 17);
    assert_eq!(next, 17);
    assert_eq!(update_next(RmwOp::Add, 5, outcome), UpdateStep::Done(12));
}

#[test]
fn capability_flags_from_cpuid() {
    let cx16 = 1u32 << 13;
    let xsave = (1u32 << 26) | (1u32 << 27);
    let avx = 1u32 << 28;
    let info = CpuInfo::from_cpuid(INTEL, leaf1(cx16 | xsave | avx), Some(0b111));
    assert!(info.has_cmpxchg16b());
    assert!(info.has_vmovdqa_atomic());
    let info = CpuInfo::from_cpuid(AMD, leaf1(cx16 | xsave | avx), Some(0b011));
    assert!(info.has_cmpxchg16b());
    assert!(!info.has_vmovdqa_atomic());
    let info = CpuInfo::from_cpuid(OTHER, leaf1(cx16 | xsave | avx), Some(0b111));
    assert!(!info.has_vmovdqa_atomic());
    let info = CpuInfo::from_cpuid(INTEL, leaf1(xsave | avx), None);
    assert!(!info.has_cmpxchg16b());
    assert!(!info.has_vmovdqa_atomic());
    assert!(reads_xcr0(AMD, leaf1(xsave)));
    assert!(!reads_xcr0(AMD, leaf1(1 << 26)));
    assert!(!reads_xcr0(OTHER, leaf1(xsave)));
    assert!(test_bit(cx16, 13));
    assert!(!test_bit(cx16, 12));
}

#[test]
fn capability_record_words() {
    let info = CpuInfo::from_flags(true, false);
    assert_eq!(info.word(), 0b011);
    assert_eq!(CpuInfo::from_word(0b011), Some(info));
    assert_eq!(CpuInfo::from_word(0b110), None);
    assert_eq!(CpuInfo::from_word(0), None);
    assert_eq!(CpuInfo::from_flags(false, true).word(), 0b101);
}

#[test]
fn detector_probes_once_and_agrees() {
    let d = Detector::new();
    let first = d.detect();
    let second = d.detect();
    assert_eq!(first, second);
    assert_eq!(first.has_cmpxchg16b(), probe().has_cmpxchg16b());
}

#[test]
fn backend_selection() {
    let native = CpuInfo::from_flags(true, false);
    let vector = CpuInfo::from_flags(true, true);
    let bare = CpuInfo::from_flags(false, true);
    assert_eq!(select_backend(false, native), Backend::Native);
    assert_eq!(select_backend(false, bare), Backend::Fallback);
    assert_eq!(select_backend(true, bare), Backend::Native);
    assert_eq!(select_access_path(vector), AccessPath::Vector);
    assert_eq!(select_access_path(native), AccessPath::Cas);
    assert_eq!(select_access_path(bare), AccessPath::Cas);
    assert!(is_lock_free_with(false, native));
    assert!(!is_lock_free_with(false, bare));
    assert!(is_lock_free_with(true, bare));
}

#[test]
fn dispatch_slot_resolves_once() {
    assert_eq!(decode_slot(0), None);
    assert_eq!(decode_slot(encode_slot(Backend::Native)), Some(Backend::Native));
    assert_eq!(decode_slot(encode_slot(Backend::Fallback)), Some(Backend::Fallback));
    let d = Detector::new();
    let slot = DispatchSlot::new();
    let first = slot.resolve(false, &d);
    assert_eq!(slot.resolve(false, &d), first);
    assert_eq!(first == Backend::Native, atomic128::is_lock_free());
}

#[test]
fn lock_stripes() {
    assert_eq!(LOCK_STRIPES, 67);
    assert_eq!(stripe_index(0), 0);
    assert_eq!(stripe_index(16), 1);
    assert_eq!(stripe_index(31), 1);
    assert_eq!(stripe_index(16 * 67), 0);
    assert_eq!(stripe_index(16 * 68 + 5), 1);
    assert!(stripe_index(usize::MAX) < LOCK_STRIPES);
}

#[test]
fn slot_step_keeps_a_resolved_slot() {
    assert_eq!(slot_next(0, Backend::Native), (1, Backend::Native));
    assert_eq!(slot_next(0, Backend::Fallback), (2, Backend::Fallback));
    assert_eq!(slot_next(1, Backend::Fallback), (1, Backend::Native));
    assert_eq!(slot_next(2, Backend::Native), (2, Backend::Fallback));
}

#[test]
fn static_feature_skips_the_slot() {
    let d = Detector::new();
    let slot = DispatchSlot::new();
    assert_eq!(slot.resolve(true, &d), Backend::Native);
    assert_eq!(slot.resolve(false, &d) == Backend::Native, atomic128::is_lock_free());
    assert_eq!(slot.resolve(true, &d), Backend::Native);
}

#[test]
fn detect_step_fills_once() {
    let probed = CpuInfo::from_flags(true, true);
    assert_eq!(detect_next(0, probed), (0b111, probed));
    let cached = CpuInfo::from_flags(false, false);
    assert_eq!(detect_next(cached.word(), probed), (0b001, cached));
}

#[test]
fn detector_keeps_a_record_the_caller_computed() {
    let d = Detector::new();
    let computed = CpuInfo::from_flags(true, true);
    assert_eq!(d.detect_or_fill(computed), computed);
    assert_eq!(d.detect(), computed);
    assert!(d.detect().has_vmovdqa_atomic());
    assert_eq!(d.detect_or_fill(CpuInfo::from_flags(false, false)), computed);
}
