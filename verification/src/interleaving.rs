//! A scope's handle list under concurrent connection churn. Each open/close
//! of a connection reaches the registry as a register or deregister of that
//! connection's id, and the registry's lock serialises them into some
//! interleaving. The law here: any interleaving in which a connection
//! registers only while not live and deregisters only while live leaves the
//! list free of duplicates and holding exactly the connections that
//! registered without a matching deregister. `add_connection` and
//! `remove_connection` realise `Register` and `Deregister` on the scope's
//! list, so the statement carries over to the registry.

use vstd::prelude::*;

use crate::server::remove_first;

verus! {

/// One action a connection's task performs on one scope's handle list.
pub enum RegistryOp {
    /// The connection with this id registers itself.
    Register(u64),
    /// The connection with this id deregisters itself.
    Deregister(u64),
}

/// The handle list after one action, as `add_connection` and
/// `remove_connection` leave it.
pub open spec fn apply_op(s: Seq<u64>, op: RegistryOp) -> Seq<u64> {
    match op {
        RegistryOp::Register(h) => s.push(h),
        RegistryOp::Deregister(h) => remove_first(s, h),
    }
}

/// The handle list after a whole interleaving, earliest action first.
pub open spec fn apply_ops(s: Seq<u64>, ops: Seq<RegistryOp>) -> Seq<u64>
    decreases ops.len(),
{
    if ops.len() == 0 {
        s
    } else {
        apply_ops(apply_op(s, ops[0]), ops.drop_first())
    }
}

/// No connection id occurs twice in the list.
pub open spec fn no_dup(s: Seq<u64>) -> bool {
    forall|i: int, j: int| 0 <= i < j < s.len() ==> s[i] != s[j]
}

/// A well-formed interleaving from a state where `live` are registered: a
/// connection registers only while not live and deregisters only while live,
/// which is how each connection actor behaves over its own lifecycle.
pub open spec fn ops_wf(live: Set<u64>, ops: Seq<RegistryOp>) -> bool
    decreases ops.len(),
{
    if ops.len() == 0 {
        true
    } else {
        match ops[0] {
            RegistryOp::Register(h) => !live.contains(h) && ops_wf(
                live.insert(h),
                ops.drop_first(),
            ),
            RegistryOp::Deregister(h) => live.contains(h) && ops_wf(
                live.remove(h),
                ops.drop_first(),
            ),
        }
    }
}

/// The ids that issued a register without a matching deregister, starting
/// from the live set `live`.
pub open spec fn live_after(live: Set<u64>, ops: Seq<RegistryOp>) -> Set<u64>
    decreases ops.len(),
{
    if ops.len() == 0 {
        live
    } else {
        match ops[0] {
            RegistryOp::Register(h) => live_after(live.insert(h), ops.drop_first()),
            RegistryOp::Deregister(h) => live_after(live.remove(h), ops.drop_first()),
        }
    }
}

/// Appending a fresh id keeps the list duplicate-free and adds exactly that
/// id to its contents.
proof fn lemma_push_step(s: Seq<u64>, h: u64)
    requires
        no_dup(s),
        !s.contains(h),
    ensures
        no_dup(s.push(h)),
        s.push(h).to_set() == s.to_set().insert(h),
{
    let t = s.push(h);
    assert forall|i: int, j: int| 0 <= i < j < t.len() implies t[i] != t[j] by {
        if j == s.len() {
            assert(s.contains(s[i]));
        }
    }
    assert forall|x: u64| t.contains(x) implies s.contains(x) || x == h by {
        let i = choose|i: int| 0 <= i < t.len() && t[i] == x;
        if i < s.len() {
            assert(s[i] == x);
        }
    }
    assert forall|x: u64| s.contains(x) implies t.contains(x) by {
        let i = choose|i: int| 0 <= i < s.len() && s[i] == x;
        assert(t[i] == x);
    }
    assert(t[s.len() as int] == h);
    assert(t.contains(h));
    assert(t.to_set() =~= s.to_set().insert(h));
}

/// Removing the first occurrence of an id from a duplicate-free list keeps
/// it duplicate-free and removes exactly that id from its contents.
proof fn lemma_remove_step(s: Seq<u64>, h: u64)
    requires
        no_dup(s),
    ensures
        no_dup(remove_first(s, h)),
        s.contains(h) ==> remove_first(s, h).to_set() == s.to_set().remove(h),
        !s.contains(h) ==> remove_first(s, h) == s,
    decreases s.len(),
{
    if s.len() == 0 {
        assert(remove_first(s, h) =~= s);
        assert(!s.contains(h));
    } else if s[0] == h {
        let t = s.drop_first();
        assert(remove_first(s, h) == t);
        assert(s.contains(h)) by {
            assert(s[0] == h);
        }
        assert forall|i: int, j: int| 0 <= i < j < t.len() implies t[i] != t[j] by {
            assert(s[i + 1] != s[j + 1]);
        }
        assert forall|x: u64| t.contains(x) implies s.contains(x) by {
            let k = choose|k: int| 0 <= k < t.len() && t[k] == x;
            assert(s[k + 1] == x);
        }
        assert(!t.contains(h)) by {
            if t.contains(h) {
                let k = choose|k: int| 0 <= k < t.len() && t[k] == h;
                assert(s[k + 1] == h && s[0] == h);
            }
        }
        assert forall|x: u64| s.contains(x) && x != h implies t.contains(x) by {
            let k = choose|k: int| 0 <= k < s.len() && s[k] == x;
            assert(k != 0);
            assert(t[k - 1] == x);
        }
        assert(t.to_set() =~= s.to_set().remove(h));
    } else {
        let t = s.drop_first();
        let u = remove_first(t, h);
        let r = remove_first(s, h);
        assert(r == seq![s[0]] + u);
        assert forall|i: int, j: int| 0 <= i < j < t.len() implies t[i] != t[j] by {
            assert(s[i + 1] != s[j + 1]);
        }
        lemma_remove_step(t, h);
        assert forall|x: u64| t.contains(x) implies s.contains(x) by {
            let k = choose|k: int| 0 <= k < t.len() && t[k] == x;
            assert(s[k + 1] == x);
        }
        assert forall|x: u64| s.contains(x) && x != s[0] implies t.contains(x) by {
            let k = choose|k: int| 0 <= k < s.len() && s[k] == x;
            assert(k != 0);
            assert(t[k - 1] == x);
        }
        assert(!t.contains(s[0])) by {
            if t.contains(s[0]) {
                let k = choose|k: int| 0 <= k < t.len() && t[k] == s[0];
                assert(s[k + 1] == s[0]);
            }
        }
        // the elements of u all come from t
        assert forall|x: u64| u.contains(x) implies t.contains(x) by {
            if t.contains(h) {
                assert(u.to_set().contains(x));
            }
        }
        // r is [s[0]] followed by u
        assert(r[0] == s[0]);
        assert forall|i: int| 0 <= i < u.len() implies r[i + 1] == u[i] by {}
        assert forall|x: u64| r.contains(x) implies x == s[0] || u.contains(x) by {
            let k = choose|k: int| 0 <= k < r.len() && r[k] == x;
            if k > 0 {
                assert(u[k - 1] == x);
            }
        }
        assert forall|x: u64| u.contains(x) implies r.contains(x) by {
            let k = choose|k: int| 0 <= k < u.len() && u[k] == x;
            assert(r[k + 1] == x);
        }
        assert(r.contains(s[0])) by {
            assert(r[0] == s[0]);
        }
        assert forall|i: int, j: int| 0 <= i < j < r.len() implies r[i] != r[j] by {
            if i == 0 {
                assert(u[j - 1] == r[j]);
                assert(u.contains(u[j - 1]));
            } else {
                assert(u[i - 1] != u[j - 1]);
            }
        }
        if s.contains(h) {
            assert(t.contains(h)) by {
                let k = choose|k: int| 0 <= k < s.len() && s[k] == h;
                assert(k != 0);
                assert(t[k - 1] == h);
            }
            assert(r.to_set() =~= s.to_set().remove(h)) by {
                assert forall|x: u64| r.contains(x) implies s.contains(x) && x != h by {
                    if x == s[0] {
                        assert(s.contains(s[0]));
                    } else {
                        assert(u.contains(x));
                        assert(u.to_set().contains(x));
                        assert(t.to_set().remove(h).contains(x));
                    }
                }
                assert forall|x: u64| s.contains(x) && x != h implies r.contains(x) by {
                    if x != s[0] {
                        assert(t.contains(x));
                        assert(t.to_set().remove(h).contains(x));
                        assert(u.to_set().contains(x));
                        assert(u.contains(x));
                    }
                }
            }
        } else {
            assert(!t.contains(h));
            assert(u == t);
            assert(r =~= s) by {
                assert forall|i: int| 0 <= i < s.len() implies r[i] == s[i] by {
                    if i > 0 {
                        assert(r[i] == t[i - 1]);
                    }
                }
            }
        }
    }
}

/// Concurrent interleaved register/deregister actions from any number of
/// connections on one scope never corrupt the scope's list: starting from a
/// duplicate-free list, a well-formed interleaving leaves a duplicate-free
/// list whose contents are exactly the connections that issued a register
/// without a matching deregister.
pub proof fn lemma_interleaving_exact(s: Seq<u64>, ops: Seq<RegistryOp>)
    requires
        no_dup(s),
        ops_wf(s.to_set(), ops),
    ensures
        no_dup(apply_ops(s, ops)),
        apply_ops(s, ops).to_set() == live_after(s.to_set(), ops),
    decreases ops.len(),
{
    if ops.len() > 0 {
        match ops[0] {
            RegistryOp::Register(h) => {
                assert(!s.contains(h)) by {
                    if s.contains(h) {
                        assert(s.to_set().contains(h));
                    }
                }
                lemma_push_step(s, h);
                lemma_interleaving_exact(s.push(h), ops.drop_first());
            },
            RegistryOp::Deregister(h) => {
                assert(s.contains(h));
                lemma_remove_step(s, h);
                lemma_interleaving_exact(remove_first(s, h), ops.drop_first());
            },
        }
    }
}

} // verus!
