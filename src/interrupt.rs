//! Interrupt control and critical sections.

use vstd::prelude::*;
use crate::register::Mstatus;

verus! {

broadcast use crate::register::group_mie_writes;

/// Proof that the holder runs with interrupts masked.
///
/// It carries no data and only `free` makes one, for the length of the
/// computation it runs.
pub struct CriticalSection {
    _private: (),
}

/// The register as a critical section hands it to its computation.
pub open spec fn enter(before: Mstatus) -> Mstatus {
    before.with_mie(false)
}

/// The register as a critical section leaves it: interrupts come back on
/// only where they were on at entry (`saved`).
pub open spec fn exit(body_end: Mstatus, saved: bool) -> Mstatus {
    if saved {
        body_end.with_mie(true)
    } else {
        body_end
    }
}

/// Disables all interrupts: clears MIE.
pub fn disable(mstatus: &mut Mstatus)
    ensures
        *final(mstatus) == old(mstatus).with_mie(false),
{
    mstatus.clear_mie();
}

/// Enables all interrupts: sets MIE.
///
/// Calling this from the computation that `free` runs would end its
/// critical section early: `free` requires the computation to hand the
/// register back with interrupts still disabled.
pub fn enable(mstatus: &mut Mstatus)
    ensures
        *final(mstatus) == old(mstatus).with_mie(true),
{
    mstatus.set_mie();
}

/// Runs `f` in an interrupt-free context (a critical section) and returns
/// its result.
///
/// Interrupts are disabled before `f` runs; afterwards they are enabled again
/// only if they were enabled on entry, so sections nest. `f` must leave
/// interrupts disabled.
pub fn free<F, R>(mstatus: &mut Mstatus, f: F) -> (r: R)
    where F: FnOnce(&CriticalSection, &mut Mstatus) -> R,
    requires
        forall|cs: &CriticalSection, m: &mut Mstatus|
            *m == enter(*old(mstatus)) ==> #[trigger] f.requires((cs, m)),
        forall|cs: &CriticalSection, m: &mut Mstatus, x: R|
            *m == enter(*old(mstatus)) && #[trigger] f.ensures((cs, m), x)
                ==> !final(m).mie_spec(),
    ensures
        exists|cs: &CriticalSection, m: &mut Mstatus|
            *m == enter(*old(mstatus))
            && #[trigger] f.ensures((cs, m), r)
            && *final(mstatus) == exit(*final(m), old(mstatus).mie_spec()),
        final(mstatus).mie_spec() == old(mstatus).mie_spec(),
{
    let saved = mstatus.mie();
    disable(mstatus);
    let cs = CriticalSection { _private: () };
    let r = f(&cs, mstatus);
    if saved {
        enable(mstatus);
    }
    r
}

/// The register after `depth` critical sections, each inside the next, are
/// entered from `before` around a computation whose effect on the register is
/// `body` (with `depth == 0`, the computation alone).
pub open spec fn nested(depth: nat, before: Mstatus, body: spec_fn(Mstatus) -> Mstatus) -> Mstatus
    decreases depth,
{
    if depth == 0 {
        body(before)
    } else {
        exit(nested((depth - 1) as nat, enter(before), body), before.mie_spec())
    }
}

/// Any stack of at least one section acts as a single one.
proof fn lemma_nested_collapses(depth: nat, before: Mstatus, body: spec_fn(Mstatus) -> Mstatus)
    requires
        depth >= 1,
    ensures
        nested(depth, before, body) == exit(body(enter(before)), before.mie_spec()),
    decreases depth,
{
    let inner = enter(before);
    assert(nested(depth, before, body) == exit(nested((depth - 1) as nat, inner, body), before.mie_spec()));
    if depth > 1 {
        lemma_nested_collapses((depth - 1) as nat, inner, body);
        assert(nested((depth - 1) as nat, inner, body) == body(inner));
    } else {
        assert(nested(0, inner, body) == body(inner));
    }
}

/// However deeply critical sections nest, the computation inside runs with
/// interrupts disabled, no inner section enables them on its way out, and
/// the outermost exit puts the enable bit back as it was at the outermost
/// entry; a computation that leaves the register alone finds it restored to
/// exactly its value before the outermost entry.
pub proof fn lemma_nested_sections(depth: nat, before: Mstatus, body: spec_fn(Mstatus) -> Mstatus)
    requires
        depth >= 1,
        forall|s: Mstatus| !s.mie_spec() ==> !(#[trigger] body(s)).mie_spec(),
    ensures
        !enter(before).mie_spec(),
        forall|k: nat| 1 <= k < depth ==> !(#[trigger] nested(k, enter(before), body)).mie_spec(),
        nested(depth, before, body) == exit(body(enter(before)), before.mie_spec()),
        nested(depth, before, body).mie_spec() == before.mie_spec(),
        (forall|s: Mstatus| #[trigger] body(s) == s) ==> nested(depth, before, body) == before,
{
    lemma_nested_collapses(depth, before, body);
    assert forall|k: nat| 1 <= k < depth implies !(#[trigger] nested(k, enter(before), body)).mie_spec() by {
        lemma_nested_collapses(k, enter(before), body);
    }
}

/// A section inside a section behaves, from outside, as the outer one alone:
/// the inner exit leaves interrupts disabled, so they are enabled at most
/// once, at the outer exit.
pub proof fn lemma_nesting_transparent(before: Mstatus, body: spec_fn(Mstatus) -> Mstatus)
    requires
        forall|s: Mstatus| !s.mie_spec() ==> !(#[trigger] body(s)).mie_spec(),
    ensures
        !nested(1, enter(before), body).mie_spec(),
        nested(2, before, body) == nested(1, before, body),
{
    lemma_nested_collapses(2, before, body);
    lemma_nested_collapses(1, before, body);
    lemma_nested_collapses(1, enter(before), body);
}

/// A computation that returns `x` and leaves the register alone makes `free`
/// return `x` and leave the register as it found it.
pub proof fn lemma_pass_through<F, R>(f: F, x: R, before: Mstatus, r: R, after: Mstatus)
    where F: FnOnce(&CriticalSection, &mut Mstatus) -> R,
    requires
        forall|cs: &CriticalSection, m: &mut Mstatus, y: R|
            #[trigger] f.ensures((cs, m), y) ==> y == x && *final(m) == *m,
        exists|cs: &CriticalSection, m: &mut Mstatus|
            *m == enter(before)
            && #[trigger] f.ensures((cs, m), r)
            && after == exit(*final(m), before.mie_spec()),
    ensures
        r == x,
        after == before,
{
}

} // verus!
