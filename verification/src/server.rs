//! The connection registry: the shared directory mapping a tenant scope to
//! the live dashboard connections registered for it. Connections are named by
//! caller-chosen integer ids and compared by value, so removal never depends
//! on address identity. The registry is the only state that several logical
//! actors mutate; the lock that guards it in a running process lives with the
//! runtime, which hands the guarded value to these methods.

use vstd::prelude::*;

use crate::connection::SendLogId;
use crate::scope::TenantScope;

verus! {

/// One scope's connections, in registration order.
struct ScopeEntry {
    scope: TenantScope,
    handles: Vec<u64>,
}

/// The registry of live connections. `add_connection` registers a connection
/// id under a scope, `remove_connection` deregisters it, `get_connection`
/// picks the first available id for a scope.
pub struct WebSocketServer {
    entries: Vec<ScopeEntry>,
}

/// The sequence `s` with its first occurrence of `h` removed; `s` itself when
/// `h` does not occur.
pub open spec fn remove_first(s: Seq<u64>, h: u64) -> Seq<u64>
    decreases s.len(),
{
    if s.len() == 0 {
        s
    } else if s[0] == h {
        s.drop_first()
    } else {
        seq![s[0]] + remove_first(s.drop_first(), h)
    }
}

impl WebSocketServer {
    /// Scopes appear at most once in the entry list; established by `new`
    /// and preserved by every method.
    pub closed spec fn wf(&self) -> bool {
        forall|i: int, j: int|
            0 <= i < j < self.entries@.len() ==> (#[trigger] self.entries@[i]).scope != (
            #[trigger] self.entries@[j]).scope
    }

    /// The connection ids registered for `scope`, oldest first.
    pub closed spec fn handles_of(&self, scope: TenantScope) -> Seq<u64> {
        if exists|i: int|
            0 <= i < self.entries@.len() && (#[trigger] self.entries@[i]).scope == scope {
            let i = choose|i: int|
                0 <= i < self.entries@.len() && (#[trigger] self.entries@[i]).scope == scope;
            self.entries@[i].handles@
        } else {
            Seq::<u64>::empty()
        }
    }

    /// The handle `get_connection` returns for `scope`: the oldest registered
    /// connection, or none when the scope is unknown or empty.
    pub open spec fn spec_pick(&self, scope: TenantScope) -> Option<u64> {
        if self.handles_of(scope).len() == 0 {
            None
        } else {
            Some(self.handles_of(scope)[0])
        }
    }

    proof fn lemma_handles_at(&self, scope: TenantScope, i: int)
        requires
            self.wf(),
            0 <= i < self.entries@.len(),
            self.entries@[i].scope == scope,
        ensures
            self.handles_of(scope) == self.entries@[i].handles@,
    {
        let j = choose|j: int|
            0 <= j < self.entries@.len() && (#[trigger] self.entries@[j]).scope == scope;
        if i != j {
            assert(false);
        }
    }

    /// Creates a new registry with no connections.
    pub fn new() -> (server: WebSocketServer)
        ensures
            server.wf(),
            forall|s: TenantScope| server.handles_of(s) == Seq::<u64>::empty(),
    {
        WebSocketServer { entries: Vec::new() }
    }

    /// The index of the entry for `scope`, if one exists.
    fn find_scope(&self, scope: TenantScope) -> (r: Option<usize>)
        requires
            self.wf(),
        ensures
            match r {
                Some(i) => i < self.entries@.len() && self.entries@[i as int].scope == scope
                    && self.handles_of(scope) == self.entries@[i as int].handles@,
                None => (forall|j: int|
                    0 <= j < self.entries@.len() ==> (#[trigger] self.entries@[j]).scope != scope)
                    && self.handles_of(scope) == Seq::<u64>::empty(),
            },
    {
        let mut i: usize = 0;
        while i < self.entries.len()
            invariant
                self.wf(),
                i <= self.entries@.len(),
                forall|j: int| 0 <= j < i ==> (#[trigger] self.entries@[j]).scope != scope,
            decreases self.entries@.len() - i,
        {
            if self.entries[i].scope == scope {
                proof {
                    self.lemma_handles_at(scope, i as int);
                }
                return Some(i);
            }
            i = i + 1;
        }
        None
    }

    /// Registers connection `conn` for `scope`, appending it to the scope's
    /// list. Never deduplicates: the caller must not register the same id for
    /// the same scope twice.
    pub fn add_connection(&mut self, scope: TenantScope, conn: u64)
        requires
            old(self).wf(),
        ensures
            final(self).wf(),
            final(self).handles_of(scope) == old(self).handles_of(scope).push(conn),
            forall|s: TenantScope|
                s != scope ==> final(self).handles_of(s) == old(self).handles_of(s),
    {
        let found = self.find_scope(scope);
        match found {
            Some(i) => {
                let ghost old_entries = self.entries@;
                let mut e = self.entries.remove(i);
                e.handles.push(conn);
                self.entries.insert(i, e);
                proof {
                    assert(self.entries@ =~= old_entries.update(
                        i as int,
                        self.entries@[i as int],
                    ));
                    assert(self.entries@[i as int].scope == scope);
                    assert(self.wf());
                    self.lemma_handles_at(scope, i as int);
                    assert forall|s: TenantScope| s != scope implies final(self).handles_of(s)
                        == old(self).handles_of(s) by {
                        self.lemma_frame(*old(self), s, i as int);
                    }
                }
            },
            None => {
                let mut handles: Vec<u64> = Vec::new();
                handles.push(conn);
                let ghost old_entries = self.entries@;
                self.entries.push(ScopeEntry { scope, handles });
                proof {
                    let n = old_entries.len() as int;
                    assert(self.wf());
                    self.lemma_handles_at(scope, n);
                    assert(old(self).handles_of(scope).push(conn) =~= self.handles_of(scope));
                    assert forall|s: TenantScope| s != scope implies final(self).handles_of(s)
                        == old(self).handles_of(s) by {
                        self.lemma_frame_push(*old(self), s);
                    }
                }
            },
        }
    }

    /// After an update that left every entry outside position `i`, and the
    /// scope at position `i`, unchanged, every other scope keeps its handles.
    proof fn lemma_frame(&self, prev: WebSocketServer, s: TenantScope, i: int)
        requires
            prev.wf(),
            self.wf(),
            0 <= i < prev.entries@.len(),
            self.entries@.len() == prev.entries@.len(),
            forall|j: int|
                0 <= j < prev.entries@.len() && j != i ==> self.entries@[j] == prev.entries@[j],
            self.entries@[i].scope == prev.entries@[i].scope,
            s != prev.entries@[i].scope,
        ensures
            self.handles_of(s) == prev.handles_of(s),
    {
        if exists|j: int| 0 <= j < prev.entries@.len() && (#[trigger] prev.entries@[j]).scope == s {
            let j = choose|j: int|
                0 <= j < prev.entries@.len() && (#[trigger] prev.entries@[j]).scope == s;
            prev.lemma_handles_at(s, j);
            self.lemma_handles_at(s, j);
        } else {
            assert forall|j: int|
                0 <= j < self.entries@.len() implies (#[trigger] self.entries@[j]).scope != s by {
                assert(prev.entries@[j].scope != s);
            }
        }
    }

    /// Appending an entry for a fresh scope keeps every other scope's handles.
    proof fn lemma_frame_push(&self, prev: WebSocketServer, s: TenantScope)
        requires
            prev.wf(),
            self.wf(),
            self.entries@.len() == prev.entries@.len() + 1,
            forall|j: int|
                0 <= j < prev.entries@.len() ==> self.entries@[j] == prev.entries@[j],
            s != self.entries@[prev.entries@.len() as int].scope,
        ensures
            self.handles_of(s) == prev.handles_of(s),
    {
        if exists|j: int| 0 <= j < prev.entries@.len() && (#[trigger] prev.entries@[j]).scope == s {
            let j = choose|j: int|
                0 <= j < prev.entries@.len() && (#[trigger] prev.entries@[j]).scope == s;
            prev.lemma_handles_at(s, j);
            self.lemma_handles_at(s, j);
        } else {
            assert forall|j: int|
                0 <= j < self.entries@.len() implies (#[trigger] self.entries@[j]).scope != s by {
                if j < prev.entries@.len() {
                    assert(prev.entries@[j].scope != s);
                }
            }
        }
    }

    /// Deregisters connection `conn` from `scope`: removes the first id that
    /// matches by value; a no-op when the scope or the id is absent.
    pub fn remove_connection(&mut self, scope: TenantScope, conn: u64)
        requires
            old(self).wf(),
        ensures
            final(self).wf(),
            final(self).handles_of(scope) == remove_first(old(self).handles_of(scope), conn),
            forall|s: TenantScope|
                s != scope ==> final(self).handles_of(s) == old(self).handles_of(s),
    {
        let found = self.find_scope(scope);
        match found {
            Some(i) => {
                let ghost old_entries = self.entries@;
                let mut e = self.entries.remove(i);
                let ghost old_handles = e.handles@;
                match find_handle(&e.handles, conn) {
                    Some(j) => {
                        e.handles.remove(j);
                        proof {
                            lemma_remove_first_at(old_handles, conn, j as int);
                        }
                    },
                    None => {
                        proof {
                            lemma_remove_first_absent(old_handles, conn);
                        }
                    },
                }
                self.entries.insert(i, e);
                proof {
                    assert(self.entries@ =~= old_entries.update(
                        i as int,
                        self.entries@[i as int],
                    ));
                    assert(self.entries@[i as int].scope == scope);
                    assert(self.wf());
                    self.lemma_handles_at(scope, i as int);
                    assert forall|s: TenantScope| s != scope implies final(self).handles_of(s)
                        == old(self).handles_of(s) by {
                        self.lemma_frame(*old(self), s, i as int);
                    }
                }
            },
            None => {
                proof {
                    lemma_remove_first_absent(Seq::<u64>::empty(), conn);
                }
            },
        }
    }

    /// Picks one connection for `scope`: the oldest registered id, or none
    /// when the scope has no live connection.
    pub fn get_connection(&self, scope: TenantScope) -> (r: Option<u64>)
        requires
            self.wf(),
        ensures
            r == self.spec_pick(scope),
    {
        match self.find_scope(scope) {
            Some(i) => {
                let e = &self.entries[i];
                if e.handles.len() > 0 {
                    Some(e.handles[0])
                } else {
                    None
                }
            },
            None => None,
        }
    }

    /// Picks one connection for the log's scope and pairs it with the
    /// notification to push; none when the scope has no live connection.
    pub fn push_log_id(&self, organization_id: u128, application_id: u128, log_id: u128) -> (r:
        Option<(u64, SendLogId)>)
        requires
            self.wf(),
        ensures
            ({
                let scope = TenantScope { organization_id, application_id };
                match r {
                    Some((conn, msg)) => self.spec_pick(scope) == Some(conn) && msg.log_id
                        == log_id && msg.app_id == application_id,
                    None => self.spec_pick(scope) is None,
                }
            }),
    {
        let scope = TenantScope { organization_id, application_id };
        match self.get_connection(scope) {
            Some(conn) => Some((conn, SendLogId { log_id, app_id: application_id })),
            None => None,
        }
    }

    /// How many connections are registered for `scope`; observability only.
    pub fn connection_count(&self, scope: TenantScope) -> (n: usize)
        requires
            self.wf(),
        ensures
            n == self.handles_of(scope).len(),
    {
        match self.find_scope(scope) {
            Some(i) => self.entries[i].handles.len(),
            None => 0,
        }
    }

    /// A copy of the ids registered for `scope`, oldest first.
    pub fn connections_of(&self, scope: TenantScope) -> (r: Vec<u64>)
        requires
            self.wf(),
        ensures
            r@ == self.handles_of(scope),
    {
        match self.find_scope(scope) {
            Some(i) => self.entries[i].handles.clone(),
            None => Vec::new(),
        }
    }
}

/// The index of the first occurrence of `h` in `v`, if any.
fn find_handle(v: &Vec<u64>, h: u64) -> (r: Option<usize>)
    ensures
        match r {
            Some(j) => j < v@.len() && v@[j as int] == h && (forall|k: int|
                0 <= k < j ==> v@[k] != h),
            None => !v@.contains(h),
        },
{
    let mut j: usize = 0;
    while j < v.len()
        invariant
            j <= v@.len(),
            forall|k: int| 0 <= k < j ==> v@[k] != h,
        decreases v@.len() - j,
    {
        if v[j] == h {
            return Some(j);
        }
        j = j + 1;
    }
    proof {
        if v@.contains(h) {
            let k = choose|k: int| 0 <= k < v@.len() && v@[k] == h;
        }
    }
    None
}

/// Removing `h` from a sequence where it first occurs at `j` removes exactly
/// position `j`.
proof fn lemma_remove_first_at(s: Seq<u64>, h: u64, j: int)
    requires
        0 <= j < s.len(),
        s[j] == h,
        forall|k: int| 0 <= k < j ==> s[k] != h,
    ensures
        remove_first(s, h) == s.remove(j),
    decreases j,
{
    if j == 0 {
        assert(remove_first(s, h) =~= s.remove(0));
    } else {
        lemma_remove_first_at(s.drop_first(), h, j - 1);
        assert(remove_first(s, h) =~= s.remove(j)) by {
            assert(remove_first(s, h) == seq![s[0]] + s.drop_first().remove(j - 1));
        }
    }
}

/// Removing a value that does not occur leaves the sequence unchanged.
proof fn lemma_remove_first_absent(s: Seq<u64>, h: u64)
    requires
        !s.contains(h),
    ensures
        remove_first(s, h) == s,
    decreases s.len(),
{
    if s.len() > 0 {
        assert(s[0] != h);
        assert(!s.drop_first().contains(h)) by {
            if s.drop_first().contains(h) {
                let k = choose|k: int|
                    0 <= k < s.drop_first().len() && s.drop_first()[k] == h;
                assert(s[k + 1] == h);
            }
        }
        lemma_remove_first_absent(s.drop_first(), h);
        assert(remove_first(s, h) =~= s);
    }
}

/// Registering a connection under a scope with no live connections makes it
/// the one that the next pick returns.
pub proof fn lemma_pick_after_register(prev: WebSocketServer, next: WebSocketServer, scope: TenantScope, h: u64)
    requires
        prev.handles_of(scope).len() == 0,
        next.handles_of(scope) == prev.handles_of(scope).push(h),
    ensures
        next.spec_pick(scope) == Some(h),
{
}

/// A register followed by a deregister of the same connection restores the
/// whole registry: the scope's handle list returns to its pre-registration
/// contents with no residual or duplicate entry, and every other scope was
/// never touched. The two hypotheses are exactly what `add_connection` and
/// `remove_connection` ensure.
pub proof fn lemma_deregister_restores_registry(
    before: WebSocketServer,
    registered: WebSocketServer,
    after: WebSocketServer,
    scope: TenantScope,
    h: u64,
)
    requires
        !before.handles_of(scope).contains(h),
        registered.handles_of(scope) == before.handles_of(scope).push(h),
        forall|s: TenantScope|
            s != scope ==> registered.handles_of(s) == before.handles_of(s),
        after.handles_of(scope) == remove_first(registered.handles_of(scope), h),
        forall|s: TenantScope| s != scope ==> after.handles_of(s) == registered.handles_of(s),
    ensures
        forall|s: TenantScope| after.handles_of(s) == before.handles_of(s),
{
    lemma_deregister_undoes_register(before.handles_of(scope), h);
}

/// Deregistering a connection directly after registering it restores the
/// scope's handle list to its pre-registration contents, provided the id was
/// not already registered (the discipline `add_connection` asks of callers).
pub proof fn lemma_deregister_undoes_register(s: Seq<u64>, h: u64)
    requires
        !s.contains(h),
    ensures
        remove_first(s.push(h), h) == s,
    decreases s.len(),
{
    if s.len() == 0 {
        assert(remove_first(s.push(h), h) =~= s);
    } else {
        assert(s[0] != h);
        assert(s.push(h).drop_first() =~= s.drop_first().push(h));
        assert(!s.drop_first().contains(h)) by {
            if s.drop_first().contains(h) {
                let k = choose|k: int|
                    0 <= k < s.drop_first().len() && s.drop_first()[k] == h;
                assert(s[k + 1] == h);
            }
        }
        lemma_deregister_undoes_register(s.drop_first(), h);
        assert(remove_first(s.push(h), h) =~= s) by {
            assert(remove_first(s.push(h), h) == seq![s[0]] + remove_first(
                s.drop_first().push(h),
                h,
            ));
        }
    }
}

} // verus!
