use vstd::prelude::*;

verus! {

/// One operation on a single key of the store.
pub ghost enum Op<V> {
    Create(V),
    Read,
    Update(V),
    Delete,
}

/// What an operation answers: `create` a flag, the others an optional value.
pub ghost enum Reply<V> {
    Flag(bool),
    Value(Option<V>),
}

/// What `key` holds in `m`, if anything.
pub open spec fn lookup<K, V>(m: Map<K, V>, key: K) -> Option<V> {
    if m.contains_key(key) {
        Some(m[key])
    } else {
        None
    }
}

/// `create`: inserts only where the key is absent, and says whether it did.
pub open spec fn create_op<K, V>(m: Map<K, V>, key: K, value: V) -> (Map<K, V>, bool) {
    if m.contains_key(key) {
        (m, false)
    } else {
        (m.insert(key, value), true)
    }
}

/// `update`: replaces the value of a present key and hands back the old one;
/// an absent key stays absent.
pub open spec fn update_op<K, V>(m: Map<K, V>, key: K, value: V) -> (Map<K, V>, Option<V>) {
    if m.contains_key(key) {
        (m.insert(key, value), Some(m[key]))
    } else {
        (m, None)
    }
}

/// `delete`: removes a present key and hands back its value.
pub open spec fn delete_op<K, V>(m: Map<K, V>, key: K) -> (Map<K, V>, Option<V>) {
    (m.remove(key), lookup(m, key))
}

/// The state after `op` on `key`, and its reply, as one atomic step.
pub open spec fn apply<K, V>(m: Map<K, V>, key: K, op: Op<V>) -> (Map<K, V>, Reply<V>) {
    match op {
        Op::Create(v) => {
            let (n, ok) = create_op(m, key, v);
            (n, Reply::Flag(ok))
        },
        Op::Read => (m, Reply::Value(lookup(m, key))),
        Op::Update(v) => {
            let (n, old) = update_op(m, key, v);
            (n, Reply::Value(old))
        },
        Op::Delete => {
            let (n, old) = delete_op(m, key);
            (n, Reply::Value(old))
        },
    }
}

/// `create` calls on one key with the given values, taking effect one after
/// another in the order of `values`: the final state and each call's reply.
pub open spec fn create_all<K, V>(m: Map<K, V>, key: K, values: Seq<V>) -> (Map<K, V>, Seq<bool>)
    decreases values.len(),
{
    if values.len() == 0 {
        (m, Seq::empty())
    } else {
        let (n, ok) = create_op(m, key, values[0]);
        let (last, rest) = create_all(n, key, values.drop_first());
        (last, seq![ok].add(rest))
    }
}

/// Creates on one absent key, taking effect one after another in any order
/// (as racing callers do behind the lock that shares a store): exactly one
/// succeeds, the first to take effect, and the key ends up holding that
/// call's value.
pub proof fn lemma_create_race<K, V>(m: Map<K, V>, key: K, values: Seq<V>)
    requires
        !m.contains_key(key),
        values.len() > 0,
    ensures
        create_all(m, key, values).1.len() == values.len(),
        forall|i: int|
            0 <= i < values.len() ==> #[trigger] create_all(m, key, values).1[i] == (i == 0),
        lookup(create_all(m, key, values).0, key) == Some(values[0]),
{
    let n = m.insert(key, values[0]);
    lemma_create_all_present(n, key, values.drop_first());
}

/// Creates on a key that is present all fail and change nothing.
pub proof fn lemma_create_all_present<K, V>(m: Map<K, V>, key: K, values: Seq<V>)
    requires
        m.contains_key(key),
    ensures
        create_all(m, key, values).0 == m,
        create_all(m, key, values).1.len() == values.len(),
        forall|i: int| 0 <= i < values.len() ==> !#[trigger] create_all(m, key, values).1[i],
    decreases values.len(),
{
    if values.len() > 0 {
        lemma_create_all_present(m, key, values.drop_first());
    }
}

/// A create on an absent key succeeds, and a read then gives its value.
pub proof fn lemma_create_then_read<K, V>(m: Map<K, V>, key: K, value: V)
    requires
        !m.contains_key(key),
    ensures
        create_op(m, key, value).1,
        lookup(create_op(m, key, value).0, key) == Some(value),
{
}

/// A create on a present key fails and leaves the store as it was.
pub proof fn lemma_duplicate_rejected<K, V>(m: Map<K, V>, key: K, value: V)
    requires
        m.contains_key(key),
    ensures
        create_op(m, key, value) == (m, false),
        lookup(create_op(m, key, value).0, key) == lookup(m, key),
{
}

/// An update on a present key hands back the previous value, and a read
/// then gives the new one.
pub proof fn lemma_update_returns_previous<K, V>(m: Map<K, V>, key: K, value: V)
    requires
        m.contains_key(key),
    ensures
        update_op(m, key, value).1 == Some(m[key]),
        lookup(update_op(m, key, value).0, key) == Some(value),
{
}

/// An update on an absent key answers nothing, changes nothing, and the key
/// stays absent.
pub proof fn lemma_update_absent<K, V>(m: Map<K, V>, key: K, value: V)
    requires
        !m.contains_key(key),
    ensures
        update_op(m, key, value) == (m, None::<V>),
        lookup(update_op(m, key, value).0, key) == None::<V>,
{
}

/// A delete on a present key hands back its value; the key is then absent,
/// and a create on it succeeds again.
pub proof fn lemma_delete_then_recreate<K, V>(m: Map<K, V>, key: K, value: V)
    requires
        m.contains_key(key),
    ensures
        delete_op(m, key).1 == Some(m[key]),
        lookup(delete_op(m, key).0, key) == None::<V>,
        create_op(delete_op(m, key).0, key, value).1,
{
}

/// A delete on an absent key answers nothing and leaves the store as it was.
pub proof fn lemma_delete_absent<K, V>(m: Map<K, V>, key: K)
    requires
        !m.contains_key(key),
    ensures
        delete_op(m, key).1 == None::<V>,
        delete_op(m, key).0 == m,
{
    assert(m.remove(key) =~= m);
}

/// Any operation on one key leaves every other key's presence and value as
/// they were.
pub proof fn lemma_disjoint_keys<K, V>(m: Map<K, V>, key: K, other: K, op: Op<V>)
    requires
        key != other,
    ensures
        lookup(apply(m, key, op).0, other) == lookup(m, other),
{
}

/// Updating a present key and then updating it back to its former value
/// restores the store.
pub proof fn lemma_update_twice_restores<K, V>(m: Map<K, V>, key: K, value: V)
    requires
        m.contains_key(key),
    ensures
        update_op(update_op(m, key, value).0, key, m[key]).0 == m,
        update_op(update_op(m, key, value).0, key, m[key]).1 == Some(value),
{
    assert(update_op(update_op(m, key, value).0, key, m[key]).0 =~= m);
}

/// A create on an absent key followed by a delete of it restores the store
/// and hands back the created value.
pub proof fn lemma_create_delete_round_trip<K, V>(m: Map<K, V>, key: K, value: V)
    requires
        !m.contains_key(key),
    ensures
        delete_op(create_op(m, key, value).0, key) == (m, Some(value)),
{
    assert(create_op(m, key, value).0.remove(key) =~= m);
}

} // verus!
