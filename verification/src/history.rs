//! A fact about histories shared by the contracts' laws: a switch that is
//! off at the start, turned on by some steps and off by others, is on at the
//! end exactly when some step turned it on and none after that turned it
//! off.
use vstd::prelude::*;

verus! {

/// `status(k)` is the switch after `k` steps; step `k` turns it on when
/// `on(k)`, off when `off(k)`, and otherwise leaves it alone. Then after `n`
/// steps the switch is on exactly when some step `i` turned it on and no
/// later step turned it off.
pub proof fn lemma_last_switch(
    status: spec_fn(int) -> bool,
    on: spec_fn(int) -> bool,
    off: spec_fn(int) -> bool,
    n: int,
)
    requires
        0 <= n,
        !status(0),
        forall|k: int|
            #![trigger on(k)]
            #![trigger off(k)]
            0 <= k < n ==> {
                &&& !(on(k) && off(k))
                &&& on(k) ==> status(k + 1)
                &&& off(k) ==> !status(k + 1)
                &&& !on(k) && !off(k) ==> status(k + 1) == status(k)
            },
    ensures
        status(n) <==> exists|i: int|
            0 <= i < n && #[trigger] on(i) && forall|j: int| i < j < n ==> !#[trigger] off(j),
    decreases n,
{
    if n > 0 {
        lemma_last_switch(status, on, off, n - 1);
        let last = n - 1;
        assert(on(last) || !on(last));
        assert(off(last) || !off(last));
        if on(last) {
            assert(status(n));
        } else if off(last) {
            assert(!status(n));
            if exists|i: int|
                0 <= i < n && #[trigger] on(i) && forall|j: int| i < j < n ==> !#[trigger] off(j) {
                let i = choose|i: int|
                    0 <= i < n && #[trigger] on(i) && forall|j: int| i < j < n ==> !#[trigger] off(j);
                assert(i != last);
                assert(!off(last));
            }
        } else {
            if status(n) {
                let i = choose|i: int|
                    0 <= i < n - 1 && #[trigger] on(i) && forall|j: int|
                        i < j < n - 1 ==> !#[trigger] off(j);
                assert forall|j: int| i < j < n implies !#[trigger] off(j) by {
                    if j == last {
                    }
                }
            } else {
                if exists|i: int|
                    0 <= i < n && #[trigger] on(i) && forall|j: int| i < j < n ==> !#[trigger] off(j) {
                    let i = choose|i: int|
                        0 <= i < n && #[trigger] on(i) && forall|j: int|
                            i < j < n ==> !#[trigger] off(j);
                    assert(i != last);
                    assert forall|j: int| i < j < n - 1 implies !#[trigger] off(j) by {
                        assert(!off(j));
                    }
                }
            }
        }
    }
}

} // verus!
