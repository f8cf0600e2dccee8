//! The bookkeeping that the correlation registries share: a map from the
//! identifier of a request to the slot on which its reply is awaited.
//!
//! A single-shot slot is resolved once and leaves the map with the reply. A
//! streaming slot stays while intermediate messages pass and leaves with the
//! terminal one.

use vstd::prelude::*;

verus! {

/// The pending entries after `key` was registered with `slot`. An earlier
/// entry under the same key is replaced.
pub open spec fn register<K, S>(pending: Map<K, S>, key: K, slot: S) -> Map<K, S> {
    pending.insert(key, slot)
}

/// The slot that a reply for `key` is handed to, if one is pending.
pub open spec fn target<K, S>(pending: Map<K, S>, key: K) -> Option<S> {
    if pending.contains_key(key) {
        Some(pending[key])
    } else {
        None
    }
}

/// The pending entries after a single-shot reply for `key` was handled.
pub open spec fn resolve<K, S>(pending: Map<K, S>, key: K) -> Map<K, S> {
    pending.remove(key)
}

/// The pending entries after a message of a stream was handled: only the
/// terminal message takes the entry away.
pub open spec fn stream_step<K, S>(pending: Map<K, S>, key: K, terminal: bool) -> Map<K, S> {
    if terminal {
        pending.remove(key)
    } else {
        pending
    }
}

/// The pending entries after the messages of `terminals` were handled in
/// order, all for the stream `key`; each element tells whether that message
/// was terminal.
pub open spec fn stream_run<K, S>(pending: Map<K, S>, key: K, terminals: Seq<bool>) -> Map<K, S>
    decreases terminals.len(),
{
    if terminals.len() == 0 {
        pending
    } else {
        stream_step(stream_run(pending, key, terminals.drop_last()), key, terminals.last())
    }
}

/// A registered request is resolved exactly once: the first reply for its
/// key finds the registered slot and takes the entry away, and a second
/// reply for the same key finds nothing and changes nothing.
pub proof fn lemma_resolved_exactly_once<K, S>(pending: Map<K, S>, key: K, slot: S)
    ensures
        target(register(pending, key, slot), key) == Some(slot),
        target(resolve(register(pending, key, slot), key), key) == None::<S>,
        resolve(resolve(register(pending, key, slot), key), key) == resolve(
            register(pending, key, slot),
            key,
        ),
{
    let once = resolve(register(pending, key, slot), key);
    assert(resolve(once, key) =~= once);
}

/// Resolving one request leaves every other pending request as it was.
pub proof fn lemma_resolve_keeps_others<K, S>(pending: Map<K, S>, key: K, other: K)
    requires
        other != key,
    ensures
        target(resolve(pending, key), other) == target(pending, other),
        target(stream_step(pending, key, true), other) == target(pending, other),
        target(stream_step(pending, key, false), other) == target(pending, other),
{
}

/// While only intermediate messages arrive, a stream keeps its entry, so
/// each of them is handed to the registered slot.
pub proof fn lemma_stream_stays_open<K, S>(pending: Map<K, S>, key: K, terminals: Seq<bool>)
    requires
        forall|i: int| 0 <= i < terminals.len() ==> !terminals[i],
    ensures
        stream_run(pending, key, terminals) == pending,
    decreases terminals.len(),
{
    if terminals.len() > 0 {
        lemma_stream_stays_open(pending, key, terminals.drop_last());
    }
}

/// The terminal message of a stream is handed to the registered slot and
/// takes the entry away; whatever arrives for the stream afterwards, terminal
/// or not, finds no slot and leaves the registry as it is.
pub proof fn lemma_stream_closes<K, S>(
    pending: Map<K, S>,
    key: K,
    slot: S,
    before: Seq<bool>,
    after: Seq<bool>,
)
    requires
        forall|i: int| 0 <= i < before.len() ==> !before[i],
    ensures
        target(stream_run(register(pending, key, slot), key, before), key) == Some(slot),
        target(stream_run(register(pending, key, slot), key, before.push(true)), key) == None::<S>,
        stream_run(register(pending, key, slot), key, before.push(true) + after) == resolve(
            register(pending, key, slot),
            key,
        ),
    decreases after.len(),
{
    let open = register(pending, key, slot);
    lemma_stream_stays_open(open, key, before);
    assert(before.push(true).drop_last() =~= before);
    let closed = resolve(open, key);
    assert(stream_run(open, key, before.push(true)) == closed);
    if after.len() == 0 {
        assert(before.push(true) + after =~= before.push(true));
    } else {
        lemma_stream_closes(pending, key, slot, before, after.drop_last());
        assert((before.push(true) + after).drop_last() =~= before.push(true) + after.drop_last());
        assert(stream_step(closed, key, after.last()) =~= closed);
    }
}

} // verus!
