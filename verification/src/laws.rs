//! Laws of the flow registry: how registration, consumer grants and
//! lookups relate across calls, stated over the registry's model.

use vstd::prelude::*;
use crate::registry::{
    entry_owns, flow_allows, is_last_owner, owner_exists, producer_entry, with_consumer,
    EntryModel,
};

verus! {

/// After a producer registration for flow `id` rooted at `owner`, with
/// `linked` as additional trusted identities, a producer-address lookup
/// for `owner` or for any linked address resolves to `id`: the new
/// entry owns the address and shadows every earlier owner of it.
pub proof fn lemma_lookup_after_add_producer(
    s: Seq<EntryModel>,
    id: Seq<u8>,
    owner: Seq<u8>,
    linked: Seq<Seq<u8>>,
    spawner: Option<Seq<u8>>,
    a: Seq<u8>,
)
    requires
        a == owner || linked.contains(a),
    ensures
        owner_exists(s.push(producer_entry(id, owner, linked, spawner)), a),
        forall|i: int|
            is_last_owner(s.push(producer_entry(id, owner, linked, spawner)), a, i) ==> (
            #[trigger] s.push(producer_entry(id, owner, linked, spawner))[i]).id == id,
{
    let s2 = s.push(producer_entry(id, owner, linked, spawner));
    assert(entry_owns(s2[s.len() as int], a));
    assert(owner_exists(s2, a));
    assert forall|i: int| is_last_owner(s2, a, i) implies (#[trigger] s2[i]).id == id by {
        if i < s.len() as int {
            assert(entry_owns(s2[s.len() as int], a));
            assert(false);
        }
    }
}

/// Granting consumer access works: after address `c` is added to the
/// consumer set of the entry at `i`, which carries flow `id`, the
/// registry authorizes sending to `c` under `id`, so a flow-gated
/// check passes.
pub proof fn lemma_consumer_grant_allows(s: Seq<EntryModel>, i: int, id: Seq<u8>, c: Seq<u8>)
    requires
        0 <= i < s.len(),
        s[i].id == id,
    ensures
        flow_allows(s.update(i, with_consumer(s[i], c)), id, c),
{
    let e2 = with_consumer(s[i], c);
    if !s[i].consumers.contains(c) {
        assert(e2.consumers[s[i].consumers.len() as int] == c);
    }
    assert(e2.consumers.contains(c));
    let s2 = s.update(i, e2);
    assert(s2[i].id == id && s2[i].consumers.contains(c));
}

/// Granting consumer access is scoped to one flow: adding address `c`
/// to the consumer set of the entry at `i`, which carries flow `id`,
/// opens no other flow to `c`; whatever was unauthorized before stays
/// unauthorized.
pub proof fn lemma_consumer_grant_scoped(
    s: Seq<EntryModel>,
    i: int,
    id: Seq<u8>,
    c: Seq<u8>,
    other: Seq<u8>,
)
    requires
        0 <= i < s.len(),
        s[i].id == id,
        other != id,
        !flow_allows(s, other, c),
    ensures
        !flow_allows(s.update(i, with_consumer(s[i], c)), other, c),
{
    let s2 = s.update(i, with_consumer(s[i], c));
    assert forall|k: int|
        0 <= k < s2.len() implies !((#[trigger] s2[k]).id == other && (entry_owns(s2[k], c)
            || s2[k].consumers.contains(c))) by {
        if k == i {
            assert(s2[k].id == id);
        } else {
            assert(s2[k] == s[k]);
            assert(!(s[k].id == other && (entry_owns(s[k], c) || s[k].consumers.contains(c))));
        }
    }
}

} // verus!
