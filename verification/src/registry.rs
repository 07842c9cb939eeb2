//! Device registry: the connected-set, the cache of native device
//! handles retained across disconnects for fast reconnection, and the
//! tokens of the supervising tasks.
//!
//! The registry is generic over the native handle type `H` and the task
//! token type `T`; the radio layer supplies both.  Each of the three
//! association lists is keyed by the device identifier and keeps its
//! keys unique.

use vstd::prelude::*;
use vstd::std_specs::vec::vec_index_mut;
use crate::strutil::str_eq;

verus! {

/// Some entry carries this key.
pub open spec fn keyed_has<V>(s: Seq<(String, V)>, key: Seq<char>) -> bool {
    exists|i: int| 0 <= i < s.len() && #[trigger] s[i].0@ == key
}

/// The index of the entry carrying this key.
pub open spec fn keyed_index<V>(s: Seq<(String, V)>, key: Seq<char>) -> int {
    choose|i: int| 0 <= i < s.len() && #[trigger] s[i].0@ == key
}

/// The value stored under this key.
pub open spec fn keyed_at<V>(s: Seq<(String, V)>, key: Seq<char>) -> V {
    s[keyed_index(s, key)].1
}

/// No two entries carry the same key.
pub open spec fn keys_unique<V>(s: Seq<(String, V)>) -> bool {
    forall|i: int, j: int|
        0 <= i < j < s.len() ==> #[trigger] s[i].0@ != #[trigger] s[j].0@
}

/// With unique keys, the entry whose key matches is the entry that the
/// lookup functions denote.
pub proof fn lemma_keyed_entry<V>(s: Seq<(String, V)>, key: Seq<char>, i: int)
    requires
        keys_unique(s),
        0 <= i < s.len(),
        s[i].0@ == key,
    ensures
        keyed_has(s, key),
        keyed_index(s, key) == i,
        keyed_at(s, key) == s[i].1,
{
    assert(keyed_has(s, key));
    let j = keyed_index(s, key);
    assert(0 <= j < s.len() && s[j].0@ == key);
    if i < j {
        assert(s[i].0@ != s[j].0@);
    }
    if j < i {
        assert(s[j].0@ != s[i].0@);
    }
}

/// The association list without the entry carrying this key; unchanged
/// when no entry carries it.
pub open spec fn removed_key<V>(s: Seq<(String, V)>, key: Seq<char>) -> Seq<(String, V)> {
    if keyed_has(s, key) {
        s.remove(keyed_index(s, key))
    } else {
        s
    }
}

/// What removing a key does: the key is gone, every other entry keeps
/// its presence and its value, and the keys stay unique.
pub proof fn lemma_removed_key<V>(s: Seq<(String, V)>, key: Seq<char>)
    requires
        keys_unique(s),
    ensures
        keys_unique(removed_key(s, key)),
        !keyed_has(removed_key(s, key), key),
        forall|k: Seq<char>|
            k != key ==> #[trigger] keyed_has(removed_key(s, key), k) == keyed_has(s, k),
        forall|k: Seq<char>|
            k != key && keyed_has(s, k) ==> #[trigger] keyed_at(removed_key(s, key), k)
                == keyed_at(s, k),
{
    if keyed_has(s, key) {
        let i = keyed_index(s, key);
        assert(0 <= i < s.len() && s[i].0@ == key);
        let s1 = s.remove(i);
        s.remove_ensures(i);
        assert forall|a: int, b: int|
            0 <= a < b < s1.len() implies #[trigger] s1[a].0@ != #[trigger] s1[b].0@ by {
            let a0 = if a < i {
                a
            } else {
                a + 1
            };
            let b0 = if b < i {
                b
            } else {
                b + 1
            };
            assert(s1[a] == s[a0] && s1[b] == s[b0]);
            assert(s[a0].0@ != s[b0].0@);
        }
        assert forall|j: int| 0 <= j < s1.len() implies #[trigger] s1[j].0@ != key by {
            let j0 = if j < i {
                j
            } else {
                j + 1
            };
            assert(s1[j] == s[j0]);
            if j0 < i {
                assert(s[j0].0@ != s[i].0@);
            } else {
                assert(s[i].0@ != s[j0].0@);
            }
        }
        assert forall|k: Seq<char>|
            k != key implies #[trigger] keyed_has(s1, k) == keyed_has(s, k) by {
            if keyed_has(s, k) {
                let j = choose|j: int| 0 <= j < s.len() && #[trigger] s[j].0@ == k;
                let j1 = if j < i {
                    j
                } else {
                    j - 1
                };
                assert(s1[j1] == s[j]);
                assert(keyed_has(s1, k));
            }
            if keyed_has(s1, k) {
                let j = choose|j: int| 0 <= j < s1.len() && #[trigger] s1[j].0@ == k;
                let j0 = if j < i {
                    j
                } else {
                    j + 1
                };
                assert(s1[j] == s[j0]);
                assert(keyed_has(s, k));
            }
        }
        assert forall|k: Seq<char>|
            k != key && keyed_has(s, k) implies #[trigger] keyed_at(s1, k) == keyed_at(s, k) by {
            let j = choose|j: int| 0 <= j < s.len() && #[trigger] s[j].0@ == k;
            lemma_keyed_entry(s, k, j);
            let j1 = if j < i {
                j
            } else {
                j - 1
            };
            assert(s1[j1] == s[j]);
            lemma_keyed_entry(s1, k, j1);
        }
    }
}

/// Removing a key is idempotent: once an id is gone from an association
/// list, removing it again changes nothing.  This is what makes
/// disconnecting a device that is not (or no longer) connected a no-op.
pub proof fn lemma_removed_key_idempotent<V>(s: Seq<(String, V)>, key: Seq<char>)
    requires
        keys_unique(s),
    ensures
        removed_key(removed_key(s, key), key) == removed_key(s, key),
{
    lemma_removed_key(s, key);
}

/// `t` is the stored task token of some connected device.
pub open spec fn is_stored_task<T>(
    connected: Seq<(String, String)>,
    tasks: Seq<(String, T)>,
    t: T,
) -> bool {
    exists|k: Seq<char>|
        keyed_has(connected, k) && keyed_has(tasks, k) && t == #[trigger] keyed_at(tasks, k)
}

/// `t` is among the handed-back tokens.
pub open spec fn has_token<T>(tokens: Seq<T>, t: T) -> bool {
    exists|i: int| 0 <= i < tokens.len() && #[trigger] tokens[i] == t
}

/// Appending a token keeps every token present, and the appended one is
/// present.
proof fn lemma_has_token_push<T>(tokens: Seq<T>, x: T)
    ensures
        forall|t: T| #[trigger] has_token(tokens, t) ==> has_token(tokens.push(x), t),
        has_token(tokens.push(x), x),
{
    assert forall|t: T| #[trigger] has_token(tokens, t) implies has_token(tokens.push(x), t) by {
        let i = choose|i: int| 0 <= i < tokens.len() && #[trigger] tokens[i] == t;
        assert(tokens.push(x)[i] == t);
    }
    assert(tokens.push(x)[tokens.len() as int] == x);
}

/// The position of the entry carrying this key, if any.
fn keyed_find<V>(v: &Vec<(String, V)>, key: &str) -> (r: Option<usize>)
    requires
        keys_unique(v@),
    ensures
        match r {
            Some(i) => i < v@.len() && v@[i as int].0@ == key@ && i as int == keyed_index(
                v@,
                key@,
            ) && keyed_has(v@, key@),
            None => !keyed_has(v@, key@),
        },
{
    let mut i: usize = 0;
    while i < v.len()
        invariant
            keys_unique(v@),
            i <= v@.len(),
            forall|j: int| 0 <= j < i ==> #[trigger] v@[j].0@ != key@,
        decreases v@.len() - i,
    {
        if str_eq(v[i].0.as_str(), key) {
            proof {
                lemma_keyed_entry(v@, key@, i as int);
            }
            return Some(i);
        }
        i += 1;
    }
    None
}

/// Inserts the value under the key, replacing any previous value.
fn keyed_put<V>(v: &mut Vec<(String, V)>, key: &str, value: V)
    requires
        keys_unique(old(v)@),
    ensures
        keys_unique(final(v)@),
        keyed_has(final(v)@, key@),
        keyed_at(final(v)@, key@) == value,
        if keyed_has(old(v)@, key@) {
            let i = keyed_index(old(v)@, key@);
            &&& final(v)@.len() == old(v)@.len()
            &&& forall|j: int|
                0 <= j < old(v)@.len() && j != i ==> final(v)@[j] == old(v)@[j]
            &&& final(v)@[i].0@ == key@
            &&& final(v)@[i].1 == value
        } else {
            &&& final(v)@.len() == old(v)@.len() + 1
            &&& forall|j: int| 0 <= j < old(v)@.len() ==> final(v)@[j] == old(v)@[j]
            &&& final(v)@[old(v)@.len() as int].0@ == key@
            &&& final(v)@[old(v)@.len() as int].1 == value
        },
{
    let ghost s0 = v@;
    match keyed_find(v, key) {
        Some(i) => {
            let entry = vec_index_mut(v, i);
            entry.1 = value;
            proof {
                assert(v@[i as int].0@ == key@);
                assert forall|a: int, b: int|
                    0 <= a < b < v@.len() implies #[trigger] v@[a].0@ != #[trigger] v@[b].0@ by {
                    assert(s0[a].0@ != s0[b].0@);
                }
                lemma_keyed_entry(v@, key@, i as int);
            }
        },
        None => {
            v.push((key.to_owned(), value));
            proof {
                assert forall|a: int, b: int|
                    0 <= a < b < v@.len() implies #[trigger] v@[a].0@ != #[trigger] v@[b].0@ by {
                    if b == s0.len() as int {
                        assert(s0[a].0@ != key@);
                    } else {
                        assert(s0[a].0@ != s0[b].0@);
                    }
                }
                lemma_keyed_entry(v@, key@, s0.len() as int);
            }
        },
    }
}

/// Removes the entry carrying the key, handing its value back.
fn keyed_remove<V>(v: &mut Vec<(String, V)>, key: &str) -> (r: Option<V>)
    requires
        keys_unique(old(v)@),
    ensures
        keys_unique(final(v)@),
        !keyed_has(final(v)@, key@),
        final(v)@ == removed_key(old(v)@, key@),
        match r {
            Some(val) => keyed_has(old(v)@, key@) && val == keyed_at(old(v)@, key@)
                && final(v)@ == old(v)@.remove(keyed_index(old(v)@, key@)),
            None => !keyed_has(old(v)@, key@) && final(v)@ == old(v)@,
        },
{
    let ghost s0 = v@;
    proof {
        lemma_removed_key(s0, key@);
    }
    match keyed_find(v, key) {
        Some(i) => {
            let entry = v.remove(i);
            Some(entry.1)
        },
        None => None,
    }
}

/// Maps each known device to what the core keeps about it.
pub struct Registry<H, T> {
    /// The connected-set: device identifier to display name.
    pub connected: Vec<(String, String)>,
    /// Cached native handles with the device's display name, retained
    /// after disconnects so that reconnection skips discovery; evicted
    /// only by full cleanup.
    pub references: Vec<(String, (H, String))>,
    /// Tokens of the supervising task of each active session.
    pub tasks: Vec<(String, T)>,
}

impl<H, T> Registry<H, T> {
    /// Keys are unique in each of the three association lists.
    pub open spec fn wf(self) -> bool {
        &&& keys_unique(self.connected@)
        &&& keys_unique(self.references@)
        &&& keys_unique(self.tasks@)
    }

    /// An empty registry.
    pub fn new() -> (r: Self)
        ensures
            r.wf(),
            r.connected@.len() == 0,
            r.references@.len() == 0,
            r.tasks@.len() == 0,
    {
        Registry { connected: Vec::new(), references: Vec::new(), tasks: Vec::new() }
    }

    /// Marks a device as connected for a competitor's session.
    pub fn register_connected_device(
        &mut self,
        device_id: &str,
        device_name: &str,
        competitor_name: &str,
    )
        requires
            old(self).wf(),
        ensures
            final(self).wf(),
            keyed_has(final(self).connected@, device_id@),
            keyed_at(final(self).connected@, device_id@)@ == device_name@,
            final(self).connected@.len() <= old(self).connected@.len() + 1,
            final(self).references == old(self).references,
            final(self).tasks == old(self).tasks,
            forall|k: Seq<char>|
                k != device_id@ ==> #[trigger] keyed_has(final(self).connected@, k) == keyed_has(
                    old(self).connected@,
                    k,
                ),
            forall|k: Seq<char>|
                k != device_id@ && keyed_has(old(self).connected@, k) ==> #[trigger] keyed_at(
                    final(self).connected@,
                    k,
                ) == keyed_at(old(self).connected@, k),
    {
        let ghost s0 = self.connected@;
        keyed_put(&mut self.connected, device_id, device_name.to_owned());
        proof {
            lemma_put_preserves_others(s0, self.connected@, device_id@);
        }
    }

    /// Marks a device as connected with no competitor bound; its effect
    /// on the connected-set is exactly that of `register_connected_device`.
    pub fn register_device_without_competitor(&mut self, device_id: &str, device_name: &str)
        requires
            old(self).wf(),
        ensures
            final(self).wf(),
            keyed_has(final(self).connected@, device_id@),
            keyed_at(final(self).connected@, device_id@)@ == device_name@,
            final(self).connected@.len() <= old(self).connected@.len() + 1,
            final(self).references == old(self).references,
            final(self).tasks == old(self).tasks,
            forall|k: Seq<char>|
                k != device_id@ ==> #[trigger] keyed_has(final(self).connected@, k) == keyed_has(
                    old(self).connected@,
                    k,
                ),
            forall|k: Seq<char>|
                k != device_id@ && keyed_has(old(self).connected@, k) ==> #[trigger] keyed_at(
                    final(self).connected@,
                    k,
                ) == keyed_at(old(self).connected@, k),
    {
        let ghost s0 = self.connected@;
        keyed_put(&mut self.connected, device_id, device_name.to_owned());
        proof {
            lemma_put_preserves_others(s0, self.connected@, device_id@);
        }
    }

    /// Removes a device from the connected-set, handing back its display
    /// name if it was connected.  The cached handle is deliberately kept.
    pub fn unregister_connected_device(&mut self, device_id: &str) -> (r: Option<String>)
        requires
            old(self).wf(),
        ensures
            final(self).wf(),
            !keyed_has(final(self).connected@, device_id@),
            final(self).references == old(self).references,
            final(self).tasks == old(self).tasks,
            match r {
                Some(name) => keyed_has(old(self).connected@, device_id@) && name == keyed_at(
                    old(self).connected@,
                    device_id@,
                ) && final(self).connected@ == old(self).connected@.remove(
                    keyed_index(old(self).connected@, device_id@),
                ),
                None => !keyed_has(old(self).connected@, device_id@) && final(self).connected@
                    == old(self).connected@,
            },
    {
        keyed_remove(&mut self.connected, device_id)
    }

    /// A reference to the whole connected-set.
    pub fn get_connected_devices_state(&self) -> (r: &Vec<(String, String)>)
        ensures
            r@ == self.connected@,
    {
        &self.connected
    }

    /// A snapshot of the identifiers of all connected devices.
    pub fn get_connected_devices(&self) -> (r: Vec<String>)
        ensures
            r@.len() == self.connected@.len(),
            forall|i: int| 0 <= i < r@.len() ==> #[trigger] r@[i] == self.connected@[i].0,
    {
        let mut ids: Vec<String> = Vec::new();
        let mut i: usize = 0;
        while i < self.connected.len()
            invariant
                i <= self.connected@.len(),
                ids@.len() == i,
                forall|j: int| 0 <= j < i ==> #[trigger] ids@[j] == self.connected@[j].0,
            decreases self.connected@.len() - i,
        {
            ids.push(self.connected[i].0.clone());
            i += 1;
        }
        ids
    }

    /// How many devices are connected.
    pub fn connected_count(&self) -> (n: usize)
        ensures
            n == self.connected@.len(),
    {
        self.connected.len()
    }

    /// Caches the native handle of a device, with its display name.
    pub fn store_device_reference(&mut self, device_id: &str, handle: H, device_name: &str)
        requires
            old(self).wf(),
        ensures
            final(self).wf(),
            keyed_has(final(self).references@, device_id@),
            keyed_at(final(self).references@, device_id@).0 == handle,
            keyed_at(final(self).references@, device_id@).1@ == device_name@,
            final(self).connected == old(self).connected,
            final(self).tasks == old(self).tasks,
    {
        keyed_put(&mut self.references, device_id, (handle, device_name.to_owned()));
    }

    /// The reconnection fast path: the cached handle and display name of
    /// a device, if one is cached.  Returns the entry itself; no
    /// discovery is involved.
    pub fn resolve(&self, device_id: &str) -> (r: Option<(&H, &String)>)
        requires
            self.wf(),
        ensures
            r is Some <==> resolution(self.references@, device_id@) is Some,
            match r {
                Some(hn) => keyed_has(self.references@, device_id@) && *hn.0 == keyed_at(
                    self.references@,
                    device_id@,
                ).0 && *hn.1 == keyed_at(self.references@, device_id@).1,
                None => !keyed_has(self.references@, device_id@),
            },
    {
        match keyed_find(&self.references, device_id) {
            Some(i) => {
                let entry = &self.references[i].1;
                Some((&entry.0, &entry.1))
            },
            None => None,
        }
    }

    /// Attaches the token of the task supervising a device's session.
    pub fn attach_task(&mut self, device_id: &str, task: T)
        requires
            old(self).wf(),
        ensures
            final(self).wf(),
            keyed_has(final(self).tasks@, device_id@),
            keyed_at(final(self).tasks@, device_id@) == task,
            final(self).connected == old(self).connected,
            final(self).references == old(self).references,
    {
        keyed_put(&mut self.tasks, device_id, task);
    }

    /// Detaches and hands back the task token of a device, so that the
    /// caller can abort the task; the registry then holds no token for a
    /// dead task.
    pub fn cleanup_device_task(&mut self, device_id: &str) -> (r: Option<T>)
        requires
            old(self).wf(),
        ensures
            final(self).wf(),
            !keyed_has(final(self).tasks@, device_id@),
            final(self).tasks@ == removed_key(old(self).tasks@, device_id@),
            final(self).connected == old(self).connected,
            final(self).references == old(self).references,
            match r {
                Some(task) => keyed_has(old(self).tasks@, device_id@) && task == keyed_at(
                    old(self).tasks@,
                    device_id@,
                ) && final(self).tasks@ == old(self).tasks@.remove(
                    keyed_index(old(self).tasks@, device_id@),
                ),
                None => !keyed_has(old(self).tasks@, device_id@) && final(self).tasks@ == old(self).tasks@,
            },
    {
        keyed_remove(&mut self.tasks, device_id)
    }

    /// Detaches every task token, handing all of them back — newest
    /// entry first — for the caller to abort.
    pub fn cleanup_all_device_tasks(&mut self) -> (r: Vec<T>)
        requires
            old(self).wf(),
        ensures
            final(self).wf(),
            final(self).tasks@.len() == 0,
            final(self).connected == old(self).connected,
            final(self).references == old(self).references,
            r@.len() == old(self).tasks@.len(),
            forall|i: int|
                0 <= i < r@.len() ==> #[trigger] r@[i] == old(self).tasks@[old(self).tasks@.len()
                    - 1 - i].1,
    {
        let ghost tasks0 = old(self).tasks@;
        let mut tokens: Vec<T> = Vec::new();
        proof {
            assert(self.tasks@ =~= tasks0.subrange(0, self.tasks@.len() as int));
        }
        while self.tasks.len() > 0
            invariant
                keys_unique(self.tasks@),
                self.connected == old(self).connected,
                self.references == old(self).references,
                tokens@.len() + self.tasks@.len() == tasks0.len(),
                self.tasks@ == tasks0.subrange(0, self.tasks@.len() as int),
                forall|i: int|
                    0 <= i < tokens@.len() ==> #[trigger] tokens@[i] == tasks0[tasks0.len() - 1
                        - i].1,
            decreases self.tasks@.len(),
        {
            let ghost cur = self.tasks@;
            match self.tasks.pop() {
                Some(entry) => {
                    proof {
                        assert(entry == cur[cur.len() - 1]);
                        assert(cur[cur.len() - 1] == tasks0[cur.len() - 1]);
                        assert(self.tasks@ =~= tasks0.subrange(0, self.tasks@.len() as int));
                    }
                    tokens.push(entry.1);
                },
                None => {
                    proof {
                        assert(false);
                    }
                },
            }
        }
        tokens
    }

    /// Disconnects one device: removes it from the connected-set if it
    /// is there, and detaches its task token in either case, handing
    /// back whatever was removed so that the caller can abort the task.
    /// Succeeds whatever the prior state — disconnecting an unknown or
    /// already-disconnected device changes nothing — and is idempotent
    /// (`lemma_removed_key_idempotent`).  The cached handle stays, so
    /// the device can reconnect without a new scan.
    pub fn disconnect_device(&mut self, device_id: &str) -> (r: (Option<String>, Option<T>))
        requires
            old(self).wf(),
        ensures
            final(self).wf(),
            final(self).references == old(self).references,
            final(self).connected@ == removed_key(old(self).connected@, device_id@),
            final(self).tasks@ == removed_key(old(self).tasks@, device_id@),
            !keyed_has(final(self).connected@, device_id@),
            !keyed_has(final(self).tasks@, device_id@),
            r.0 is Some <==> keyed_has(old(self).connected@, device_id@),
            r.0 matches Some(name) ==> name == keyed_at(old(self).connected@, device_id@),
            r.1 is Some <==> keyed_has(old(self).tasks@, device_id@),
            r.1 matches Some(task) ==> task == keyed_at(old(self).tasks@, device_id@),
    {
        let name = keyed_remove(&mut self.connected, device_id);
        let task = keyed_remove(&mut self.tasks, device_id);
        (name, task)
    }

    /// Disconnects every connected device in turn; one device's state
    /// never stops the others.  Afterwards the connected-set is empty,
    /// the task token of every formerly connected device has been
    /// detached and is among the handed-back tokens for the caller to
    /// abort, tasks of never-connected ids are untouched, and the handle
    /// cache is untouched.
    pub fn disconnect_all_devices(&mut self) -> (r: Vec<T>)
        requires
            old(self).wf(),
        ensures
            final(self).wf(),
            final(self).connected@.len() == 0,
            final(self).references == old(self).references,
            forall|k: Seq<char>|
                #[trigger] keyed_has(old(self).connected@, k) ==> !keyed_has(
                    final(self).tasks@,
                    k,
                ),
            forall|k: Seq<char>|
                !keyed_has(old(self).connected@, k) ==> #[trigger] keyed_has(final(self).tasks@, k)
                    == keyed_has(old(self).tasks@, k),
            forall|k: Seq<char>|
                !keyed_has(old(self).connected@, k) && keyed_has(old(self).tasks@, k)
                    ==> #[trigger] keyed_at(final(self).tasks@, k) == keyed_at(old(self).tasks@, k),
            forall|i: int|
                0 <= i < r@.len() ==> is_stored_task(
                    old(self).connected@,
                    old(self).tasks@,
                    #[trigger] r@[i],
                ),
            forall|k: Seq<char>|
                #[trigger] keyed_has(old(self).connected@, k) && keyed_has(old(self).tasks@, k)
                    ==> has_token(r@, keyed_at(old(self).tasks@, k)),
    {
        let ghost connected0 = self.connected@;
        let ghost tasks0 = self.tasks@;
        let mut tokens: Vec<T> = Vec::new();
        proof {
            assert(self.connected@ =~= connected0.subrange(0, self.connected@.len() as int));
        }
        while self.connected.len() > 0
            invariant
                self.wf(),
                self.references == old(self).references,
                connected0 == old(self).connected@,
                tasks0 == old(self).tasks@,
                keys_unique(connected0),
                self.connected@.len() <= connected0.len(),
                self.connected@ == connected0.subrange(0, self.connected@.len() as int),
                forall|k: Seq<char>|
                    #[trigger] keyed_has(self.tasks@, k) ==> keyed_has(tasks0, k) && keyed_at(
                        self.tasks@,
                        k,
                    ) == keyed_at(tasks0, k),
                forall|k: Seq<char>|
                    #[trigger] keyed_has(tasks0, k) && (keyed_has(self.connected@, k)
                        || !keyed_has(connected0, k)) ==> keyed_has(self.tasks@, k),
                forall|k: Seq<char>|
                    #[trigger] keyed_has(connected0, k) ==> keyed_has(self.connected@, k)
                        || !keyed_has(self.tasks@, k),
                forall|i: int|
                    0 <= i < tokens@.len() ==> is_stored_task(
                        connected0,
                        tasks0,
                        #[trigger] tokens@[i],
                    ),
                forall|k: Seq<char>|
                    #[trigger] keyed_has(connected0, k) && keyed_has(tasks0, k) ==> keyed_has(
                        self.connected@,
                        k,
                    ) || has_token(tokens@, keyed_at(tasks0, k)),
            decreases self.connected@.len(),
        {
            let ghost conn_in = self.connected@;
            let ghost tasks_in = self.tasks@;
            let ghost toks_in = tokens@;
            let ghost n = conn_in.len() as int;
            match self.connected.pop() {
                Some(entry) => {
                    proof {
                        assert(entry == conn_in[n - 1]);
                        assert(conn_in == connected0.subrange(0, n));
                        assert(connected0.subrange(0, n)[n - 1] == connected0[n - 1]);
                        assert(connected0[n - 1].0@ == entry.0@);
                        assert(keyed_has(connected0, entry.0@));
                        assert(self.connected@ =~= connected0.subrange(
                            0,
                            self.connected@.len() as int,
                        ));
                        lemma_removed_key(tasks_in, entry.0@);
                    }
                    match keyed_remove(&mut self.tasks, entry.0.as_str()) {
                        Some(task) => {
                            proof {
                                assert(keyed_has(tasks0, entry.0@));
                                assert(task == keyed_at(tasks0, entry.0@));
                                assert(is_stored_task(connected0, tasks0, task));
                                lemma_has_token_push(tokens@, task);
                            }
                            tokens.push(task);
                        },
                        None => {},
                    }
                    proof {
                        let ghost k0 = entry.0@;
                        assert forall|k: Seq<char>|
                            #[trigger] keyed_has(tasks0, k) && (keyed_has(self.connected@, k)
                                || !keyed_has(connected0, k)) implies keyed_has(
                            self.tasks@,
                            k,
                        ) by {
                            if k == k0 {
                                if keyed_has(self.connected@, k0) {
                                    let i = choose|i: int|
                                        0 <= i < self.connected@.len()
                                            && #[trigger] self.connected@[i].0@ == k0;
                                    assert(connected0[i].0@ == k0);
                                    assert(connected0[n - 1].0@ == k0);
                                    assert(false);
                                }
                            } else {
                                if keyed_has(self.connected@, k) {
                                    let i = choose|i: int|
                                        0 <= i < self.connected@.len()
                                            && #[trigger] self.connected@[i].0@ == k;
                                    assert(conn_in[i].0@ == k);
                                    assert(keyed_has(conn_in, k));
                                }
                                assert(keyed_has(tasks_in, k));
                            }
                        }
                        assert forall|k: Seq<char>|
                            #[trigger] keyed_has(connected0, k) implies keyed_has(
                            self.connected@,
                            k,
                        ) || !keyed_has(self.tasks@, k) by {
                            if keyed_has(conn_in, k) {
                                let i = choose|i: int|
                                    0 <= i < conn_in.len() && #[trigger] conn_in[i].0@ == k;
                                if i < n - 1 {
                                    assert(self.connected@[i].0@ == k);
                                    assert(keyed_has(self.connected@, k));
                                } else {
                                    assert(k == k0);
                                }
                            }
                        }
                        assert forall|k: Seq<char>|
                            #[trigger] keyed_has(connected0, k) && keyed_has(tasks0, k) implies
                            keyed_has(self.connected@, k) || has_token(
                            tokens@,
                            keyed_at(tasks0, k),
                        ) by {
                            if has_token(toks_in, keyed_at(tasks0, k)) {
                                assert(has_token(tokens@, keyed_at(tasks0, k)));
                            } else if keyed_has(conn_in, k) {
                                let i = choose|i: int|
                                    0 <= i < conn_in.len() && #[trigger] conn_in[i].0@ == k;
                                if i < n - 1 {
                                    assert(self.connected@[i].0@ == k);
                                    assert(keyed_has(self.connected@, k));
                                } else {
                                    assert(k == k0);
                                    assert(keyed_has(tasks_in, k0));
                                    assert(has_token(tokens@, keyed_at(tasks0, k0)));
                                }
                            }
                        }
                    }
                },
                None => {
                    proof {
                        assert(false);
                    }
                },
            }
        }
        proof {
            assert forall|k: Seq<char>|
                !keyed_has(connected0, k) && keyed_has(tasks0, k) implies #[trigger] keyed_at(
                self.tasks@,
                k,
            ) == keyed_at(tasks0, k) by {
                assert(keyed_has(self.tasks@, k));
            }
        }
        tokens
    }

    /// Clears everything: the connected-set, the handle cache and the
    /// task tokens (all handed back, newest entry first, for the caller
    /// to abort).
    pub fn clear_all(&mut self) -> (r: Vec<T>)
        requires
            old(self).wf(),
        ensures
            final(self).wf(),
            final(self).connected@.len() == 0,
            final(self).references@.len() == 0,
            final(self).tasks@.len() == 0,
            r@.len() == old(self).tasks@.len(),
            forall|i: int|
                0 <= i < r@.len() ==> #[trigger] r@[i] == old(self).tasks@[old(self).tasks@.len()
                    - 1 - i].1,
    {
        self.connected.clear();
        self.references.clear();
        self.cleanup_all_device_tasks()
    }
}

/// What resolving a device id against the handle cache denotes: the
/// cached entry when one exists, nothing otherwise.
pub open spec fn resolution<H>(
    refs: Seq<(String, (H, String))>,
    id: Seq<char>,
) -> Option<(H, String)> {
    if keyed_has(refs, id) {
        Some(keyed_at(refs, id))
    } else {
        None
    }
}

/// Reconnection idempotence: against one and the same cache state,
/// resolution is a function — two resolutions in succession (with no
/// intervening cleanup) denote the same outcome — and whenever a handle
/// stands cached under the id, resolution is a cache hit that hands back
/// exactly that handle, so no discovery is needed.
pub proof fn lemma_resolve_idempotent<H>(refs: Seq<(String, (H, String))>, id: Seq<char>)
    requires
        keys_unique(refs),
    ensures
        resolution(refs, id) == resolution(refs, id),
        keyed_has(refs, id) ==> resolution(refs, id) == Some(keyed_at(refs, id)),
        !keyed_has(refs, id) ==> resolution(refs, id) is None,
{
}

/// Inserting under one key neither adds nor removes any other key, and
/// every other entry keeps its value.
proof fn lemma_put_preserves_others<V>(
    s0: Seq<(String, V)>,
    s1: Seq<(String, V)>,
    key: Seq<char>,
)
    requires
        keys_unique(s0),
        keys_unique(s1),
        s1.len() == s0.len() || s1.len() == s0.len() + 1,
        forall|j: int| 0 <= j < s0.len() && (s1.len() == s0.len() ==> j != keyed_index(s0, key))
            ==> s1[j] == s0[j],
        s1.len() == s0.len() ==> keyed_has(s0, key) && s1[keyed_index(s0, key)].0@ == key,
        s1.len() == s0.len() + 1 ==> s1[s0.len() as int].0@ == key,
    ensures
        forall|k: Seq<char>| k != key ==> #[trigger] keyed_has(s1, k) == keyed_has(s0, k),
        forall|k: Seq<char>|
            k != key && keyed_has(s0, k) ==> #[trigger] keyed_at(s1, k) == keyed_at(s0, k),
{
    assert forall|k: Seq<char>| k != key implies #[trigger] keyed_has(s1, k) == keyed_has(
        s0,
        k,
    ) by {
        if keyed_has(s0, k) {
            let i = choose|i: int| 0 <= i < s0.len() && #[trigger] s0[i].0@ == k;
            if s1.len() == s0.len() && i == keyed_index(s0, key) {
                assert(s0[i].0@ == key);
            } else {
                assert(s1[i].0@ == k);
            }
        }
        if keyed_has(s1, k) {
            let i = choose|i: int| 0 <= i < s1.len() && #[trigger] s1[i].0@ == k;
            if i < s0.len() as int {
                if s1.len() == s0.len() && i == keyed_index(s0, key) {
                } else {
                    assert(s0[i].0@ == k);
                }
            }
        }
    }
    assert forall|k: Seq<char>|
        k != key && keyed_has(s0, k) implies #[trigger] keyed_at(s1, k) == keyed_at(s0, k) by {
        let i = choose|i: int| 0 <= i < s0.len() && #[trigger] s0[i].0@ == k;
        lemma_keyed_entry(s0, k, i);
        if s1.len() == s0.len() {
            assert(s0[keyed_index(s0, key)].0@ == key);
            assert(i != keyed_index(s0, key));
        }
        assert(s1[i] == s0[i]);
        lemma_keyed_entry(s1, k, i);
    }
}

} // verus!
