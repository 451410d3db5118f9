use vstd::prelude::*;
use core::sync::atomic::Ordering;

verus! {

/// One of the five memory orderings.
pub open spec fn is_ordering(o: Ordering) -> bool {
    match o {
        Ordering::Relaxed | Ordering::Release | Ordering::Acquire | Ordering::AcqRel
        | Ordering::SeqCst => true,
        _ => false,
    }
}

/// Whether an operation under `o` synchronizes with the stores it reads from.
pub open spec fn acquires(o: Ordering) -> bool {
    match o {
        Ordering::Acquire | Ordering::AcqRel | Ordering::SeqCst => true,
        _ => false,
    }
}

/// Whether a store under `o` publishes the writes that precede it.
pub open spec fn releases(o: Ordering) -> bool {
    match o {
        Ordering::Release | Ordering::AcqRel | Ordering::SeqCst => true,
        _ => false,
    }
}

/// An ordering that a load may use: relaxed, acquire or sequentially consistent.
pub open spec fn is_load_ordering(o: Ordering) -> bool {
    match o {
        Ordering::Relaxed | Ordering::Acquire | Ordering::SeqCst => true,
        _ => false,
    }
}

/// An ordering that a store may use: relaxed, release or sequentially consistent.
pub open spec fn is_store_ordering(o: Ordering) -> bool {
    match o {
        Ordering::Relaxed | Ordering::Release | Ordering::SeqCst => true,
        _ => false,
    }
}

/// The ordering of a failed compare-and-swap that goes with `o`: the
/// release part is dropped, since a failed attempt publishes nothing.
pub open spec fn failure_of(o: Ordering) -> Ordering {
    match o {
        Ordering::Release => Ordering::Relaxed,
        Ordering::AcqRel => Ordering::Acquire,
        _ => o,
    }
}

/// The success ordering, raised so that it is not weaker than the failure
/// ordering, for hardware that has one ordering for both outcomes.
pub open spec fn upgraded(success: Ordering, failure: Ordering) -> Ordering {
    match failure {
        Ordering::SeqCst => Ordering::SeqCst,
        Ordering::Acquire => match success {
            Ordering::Relaxed => Ordering::Acquire,
            Ordering::Release => Ordering::AcqRel,
            _ => success,
        },
        _ => success,
    }
}

/// The strongest ordering that a failed compare-and-swap may use when the
/// operation as a whole runs under `order`.
pub fn strongest_failure_ordering(order: Ordering) -> (r: Ordering)
    requires
        is_ordering(order),
    ensures
        r == failure_of(order),
        is_load_ordering(r),
        acquires(r) == acquires(order),
        order == Ordering::SeqCst <==> r == Ordering::SeqCst,
{
    match order {
        Ordering::Release => Ordering::Relaxed,
        Ordering::AcqRel => Ordering::Acquire,
        _ => order,
    }
}

/// The success ordering raised to be at least as strong as the failure one.
pub fn upgrade_success_ordering(success: Ordering, failure: Ordering) -> (r: Ordering)
    requires
        is_ordering(success),
        is_load_ordering(failure),
    ensures
        r == upgraded(success, failure),
        is_ordering(r),
        acquires(success) || acquires(failure) <==> acquires(r),
        releases(success) ==> releases(r),
        failure != Ordering::SeqCst ==> (releases(success) <==> releases(r)),
        failure == Ordering::SeqCst ==> r == Ordering::SeqCst,
        failure != Ordering::SeqCst && success == Ordering::SeqCst ==> r == Ordering::SeqCst,
{
    match failure {
        Ordering::SeqCst => Ordering::SeqCst,
        Ordering::Acquire => match success {
            Ordering::Relaxed => Ordering::Acquire,
            Ordering::Release => Ordering::AcqRel,
            _ => success,
        },
        _ => success,
    }
}

/// Whether `order` is one that a load accepts.
pub fn is_valid_load_ordering(order: Ordering) -> (r: bool)
    ensures
        r == is_load_ordering(order),
{
    match order {
        Ordering::Relaxed | Ordering::Acquire | Ordering::SeqCst => true,
        _ => false,
    }
}

/// Whether `order` is one that a store accepts.
pub fn is_valid_store_ordering(order: Ordering) -> (r: bool)
    ensures
        r == is_store_ordering(order),
{
    match order {
        Ordering::Relaxed | Ordering::Release | Ordering::SeqCst => true,
        _ => false,
    }
}

/// Whether a compare-and-swap accepts the pair `(success, failure)`.
pub fn is_valid_compare_exchange_ordering(success: Ordering, failure: Ordering) -> (r: bool)
    ensures
        r == (is_ordering(success) && is_load_ordering(failure)),
{
    let s = match success {
        Ordering::Relaxed | Ordering::Release | Ordering::Acquire | Ordering::AcqRel
        | Ordering::SeqCst => true,
        _ => false,
    };
    s && is_valid_load_ordering(failure)
}

/// Whether a plain vector store under `order` needs a full fence after it:
/// relaxed and release stores are plain writes on x86-64, a sequentially
/// consistent one is followed by a fence.
pub fn vector_store_needs_fence(order: Ordering) -> (r: bool)
    requires
        is_store_ordering(order),
    ensures
        r == (order == Ordering::SeqCst),
{
    match order {
        Ordering::SeqCst => true,
        _ => false,
    }
}

} // verus!
