//! The flow registry: a process-wide store mapping flow control ids to
//! flow entries (producer, linked addresses, consumers) and answering
//! reverse lookups from a producer address to its flow control id.

use vstd::prelude::*;
use crate::address::Address;
use crate::flow_control_id::{FlowControlId, FLOW_CONTROL_ID_LEN};

verus! {

/// Mathematical model of one flow entry.
///
/// `producer` and `linked` jointly form the flow's trusted identity:
/// the addresses authorized to originate traffic on the flow.
/// `consumers` holds the addresses that have been granted access to
/// be sent traffic under the flow; the set only grows.
pub ghost struct EntryModel {
    pub id: Seq<u8>,
    pub producer: Seq<u8>,
    pub linked: Seq<Seq<u8>>,
    pub spawner: Option<Seq<u8>>,
    pub consumers: Seq<Seq<u8>>,
}

/// The byte strings of a sequence of addresses.
pub open spec fn addr_views(s: Seq<Address>) -> Seq<Seq<u8>> {
    s.map_values(|a: Address| a@)
}

/// The token of an optional flow control id.
pub open spec fn opt_id_view(o: Option<FlowControlId>) -> Option<Seq<u8>> {
    match o {
        Some(id) => Some(id@),
        None => None,
    }
}

/// Whether address `a` belongs to the trusted identity of entry `e`:
/// its producer address or one of its linked addresses.
pub open spec fn entry_owns(e: EntryModel, a: Seq<u8>) -> bool {
    e.producer == a || e.linked.contains(a)
}

/// Whether some entry of `s` has address `a` in its trusted identity.
pub open spec fn owner_exists(s: Seq<EntryModel>, a: Seq<u8>) -> bool {
    exists|i: int| 0 <= i < s.len() && entry_owns(#[trigger] s[i], a)
}

/// Whether `s[i]` is the most recently registered entry whose trusted
/// identity contains address `a`.
pub open spec fn is_last_owner(s: Seq<EntryModel>, a: Seq<u8>, i: int) -> bool {
    &&& 0 <= i < s.len()
    &&& entry_owns(s[i], a)
    &&& forall|j: int| i < j < s.len() ==> !entry_owns(#[trigger] s[j], a)
}

/// Whether some entry of `s` carries flow control id `id`.
pub open spec fn has_id(s: Seq<EntryModel>, id: Seq<u8>) -> bool {
    exists|i: int| 0 <= i < s.len() && (#[trigger] s[i]).id == id
}

/// Entry `e` with address `a` granted consumer access; granting access
/// twice leaves the consumer set unchanged.
pub open spec fn with_consumer(e: EntryModel, a: Seq<u8>) -> EntryModel {
    if e.consumers.contains(a) {
        e
    } else {
        EntryModel { consumers: e.consumers.push(a), ..e }
    }
}

/// A freshly created entry: a flow rooted at `producer`, with `linked`
/// as additional trusted identities and no consumers yet.
pub open spec fn producer_entry(
    id: Seq<u8>,
    producer: Seq<u8>,
    linked: Seq<Seq<u8>>,
    spawner: Option<Seq<u8>>,
) -> EntryModel {
    EntryModel { id, producer, linked, spawner, consumers: Seq::empty() }
}

/// Whether registry state `s` authorizes sending to `dest` under flow
/// `id`: some entry carries `id` and has `dest` in its trusted
/// identity or consumer set.
pub open spec fn flow_allows(s: Seq<EntryModel>, id: Seq<u8>, dest: Seq<u8>) -> bool {
    exists|i: int|
        0 <= i < s.len() && (#[trigger] s[i]).id == id && (entry_owns(s[i], dest)
            || s[i].consumers.contains(dest))
}

/// Error of the flow registry.
#[derive(Clone, Copy, Debug, PartialEq, Eq, Structural)]
pub enum FlowControlError {
    /// A flow entry already exists for the given flow control id, and
    /// flow control ids are contractually generated fresh per use.
    DuplicateFlowControlId,
}

/// One flow entry: the state the registry keeps for one flow.
pub struct FlowControlEntry {
    flow_control_id: FlowControlId,
    producer_address: Address,
    linked_addresses: Vec<Address>,
    spawner_flow_control_id: Option<FlowControlId>,
    consumers: Vec<Address>,
}

impl View for FlowControlEntry {
    type V = EntryModel;

    closed spec fn view(&self) -> EntryModel {
        EntryModel {
            id: self.flow_control_id@,
            producer: self.producer_address@,
            linked: addr_views(self.linked_addresses@),
            spawner: opt_id_view(self.spawner_flow_control_id),
            consumers: addr_views(self.consumers@),
        }
    }
}

/// Whether some address of `v` has the same bytes as `a`.
fn addrs_contain(v: &Vec<Address>, a: &Address) -> (r: bool)
    ensures
        r == addr_views(v@).contains(a@),
{
    let mut i: usize = 0;
    while i < v.len()
        invariant
            i <= v.len(),
            forall|j: int| 0 <= j < i ==> addr_views(v@)[j] != a@,
        decreases v.len() - i,
    {
        if v[i] == *a {
            proof {
                assert(addr_views(v@)[i as int] == a@);
            }
            return true;
        }
        i = i + 1;
    }
    proof {
        assert(forall|j: int| 0 <= j < addr_views(v@).len() ==> addr_views(v@)[j] != a@);
    }
    false
}

impl FlowControlEntry {
    /// Whether `address` belongs to this entry's trusted identity.
    fn owns_address(&self, address: &Address) -> (r: bool)
        ensures
            r == entry_owns(self@, address@),
    {
        if self.producer_address == *address {
            return true;
        }
        addrs_contain(&self.linked_addresses, address)
    }

    /// Whether this entry authorizes sending to `destination`: the
    /// address is in the trusted identity or in the consumer set.
    fn authorizes(&self, destination: &Address) -> (r: bool)
        ensures
            r == (entry_owns(self@, destination@) || self@.consumers.contains(destination@)),
    {
        if self.owns_address(destination) {
            return true;
        }
        addrs_contain(&self.consumers, destination)
    }
}

/// The byte strings of a sequence of flow entries, entry by entry.
pub open spec fn entries_view(s: Seq<FlowControlEntry>) -> Seq<EntryModel> {
    s.map_values(|e: FlowControlEntry| e@)
}

/// The flow registry.
///
/// Entries are kept in registration order; later registrations shadow
/// earlier ones in reverse lookups from producer addresses.
pub struct FlowControls {
    entries: Vec<FlowControlEntry>,
}

impl View for FlowControls {
    type V = Seq<EntryModel>;

    closed spec fn view(&self) -> Seq<EntryModel> {
        entries_view(self.entries@)
    }
}

/// Relies on rand::random: draws a value of `T` from the thread-local
/// generator, which is cryptographically secure. Nothing is promised of
/// the drawn value.
pub assume_specification<T>[ rand::random::<T> ]() -> (r: T)
    where
        rand::distributions::Standard: rand::distributions::Distribution<T>,
;

impl FlowControls {
    /// An empty registry.
    pub fn new() -> (r: FlowControls)
        ensures
            r@ == Seq::<EntryModel>::empty(),
            r.wf(),
    {
        let r = FlowControls { entries: Vec::new() };
        proof {
            assert(r@ =~= Seq::<EntryModel>::empty());
        }
        r
    }

    /// Well-formedness: each flow control id is associated with at most
    /// one entry for the lifetime of the registry.
    pub open spec fn wf(&self) -> bool {
        forall|i: int, j: int|
            0 <= i < j < self@.len() ==> (#[trigger] self@[i]).id != (#[trigger] self@[j]).id
    }

    /// Produces a fresh random flow control id. No coordination with
    /// existing entries is needed: the id is drawn from a
    /// cryptographically strong source, so it is globally unique with
    /// overwhelming probability and unpredictable to an attacker.
    pub fn generate_flow_control_id() -> (r: FlowControlId)
        ensures
            r@.len() == FLOW_CONTROL_ID_LEN,
    {
        let drawn: [u8; 16] = rand::random();
        let bytes = vstd::slice::slice_to_vec(drawn.as_slice());
        FlowControlId::new(bytes)
    }

    /// Whether the registry holds an entry for `flow_control_id`.
    pub fn contains_flow_control_id(&self, flow_control_id: &FlowControlId) -> (r: bool)
        ensures
            r == has_id(self@, flow_control_id@),
    {
        let mut i: usize = 0;
        while i < self.entries.len()
            invariant
                i <= self.entries.len(),
                forall|j: int| 0 <= j < i ==> (#[trigger] self@[j]).id != flow_control_id@,
            decreases self.entries.len() - i,
        {
            if self.entries[i].flow_control_id == *flow_control_id {
                proof {
                    assert(self@[i as int].id == flow_control_id@);
                }
                return true;
            }
            i = i + 1;
        }
        false
    }

    /// Creates a new flow entry for `flow_control_id`, rooted at
    /// `address`, with `linked_addresses` as additional trusted
    /// identities and `spawner_flow_control_id` recorded as provenance.
    /// The entry starts with no consumers. When an entry for
    /// `flow_control_id` already exists this fails fast, leaving the
    /// registry unchanged, rather than silently overwriting.
    pub fn add_producer(
        &mut self,
        address: Address,
        flow_control_id: &FlowControlId,
        spawner_flow_control_id: Option<FlowControlId>,
        linked_addresses: Vec<Address>,
    ) -> (r: Result<(), FlowControlError>)
        requires
            old(self).wf(),
        ensures
            final(self).wf(),
            r is Ok <==> !has_id(old(self)@, flow_control_id@),
            r is Ok ==> final(self)@ == old(self)@.push(
                producer_entry(
                    flow_control_id@,
                    address@,
                    addr_views(linked_addresses@),
                    opt_id_view(spawner_flow_control_id),
                ),
            ),
            r is Err ==> final(self)@ == old(self)@ && r == Err::<(), FlowControlError>(
                FlowControlError::DuplicateFlowControlId,
            ),
    {
        if self.contains_flow_control_id(flow_control_id) {
            return Err(FlowControlError::DuplicateFlowControlId);
        }
        let entry = FlowControlEntry {
            flow_control_id: flow_control_id.clone(),
            producer_address: address,
            linked_addresses,
            spawner_flow_control_id,
            consumers: Vec::new(),
        };
        let ghost pushed = entry@;
        proof {
            assert(pushed.linked =~= addr_views(linked_addresses@));
            assert(pushed.consumers =~= Seq::<Seq<u8>>::empty());
            assert(pushed == producer_entry(
                flow_control_id@,
                address@,
                addr_views(linked_addresses@),
                opt_id_view(spawner_flow_control_id),
            ));
        }
        self.entries.push(entry);
        proof {
            assert(self@ =~= old(self)@.push(pushed));
            assert forall|i: int, j: int| 0 <= i < j < self@.len() implies (#[trigger] self@[i]).id
                != (#[trigger] self@[j]).id by {
                if j < old(self)@.len() {
                    assert(old(self)@[i].id != old(self)@[j].id);
                } else {
                    assert(!has_id(old(self)@, flow_control_id@));
                    assert(self@[i] == old(self)@[i]);
                }
            }
        }
        Ok(())
    }

    /// Inserts `address` into the consumer set of the entry for
    /// `flow_control_id`. The consumer set only grows, and every other
    /// entry is left unchanged. When no entry has that id the call is a
    /// silent no-op and the registry is unchanged.
    pub fn add_consumer(&mut self, address: Address, flow_control_id: &FlowControlId)
        requires
            old(self).wf(),
        ensures
            final(self).wf(),
            final(self)@.len() == old(self)@.len(),
            forall|i: int|
                0 <= i < old(self)@.len() && (#[trigger] old(self)@[i]).id != flow_control_id@
                    ==> final(self)@[i] == old(self)@[i],
            forall|i: int|
                0 <= i < old(self)@.len() && (#[trigger] old(self)@[i]).id == flow_control_id@
                    ==> final(self)@[i] == with_consumer(old(self)@[i], address@),
            !has_id(old(self)@, flow_control_id@) ==> final(self)@ == old(self)@,
    {
        let mut i: usize = 0;
        while i < self.entries.len()
            invariant
                i <= self.entries.len(),
                *self == *old(self),
                old(self).wf(),
                forall|j: int| 0 <= j < i ==> (#[trigger] old(self)@[j]).id != flow_control_id@,
            decreases self.entries.len() - i,
        {
            if self.entries[i].flow_control_id == *flow_control_id {
                proof {
                    assert(old(self)@[i as int].id == flow_control_id@);
                }
                let mut entry = self.entries.remove(i);
                if !addrs_contain(&entry.consumers, &address) {
                    let ghost old_consumers = entry@.consumers;
                    entry.consumers.push(address);
                    proof {
                        assert(entry@.consumers =~= old_consumers.push(address@));
                    }
                }
                let ghost updated = entry@;
                proof {
                    assert(updated == with_consumer(old(self)@[i as int], address@));
                }
                self.entries.insert(i, entry);
                proof {
                    assert(self@ =~= old(self)@.update(i as int, updated));
                    assert(updated.id == old(self)@[i as int].id);
                    assert forall|k: int|
                        0 <= k < old(self)@.len() && (#[trigger] old(self)@[k]).id
                            == flow_control_id@ implies self@[k] == with_consumer(
                        old(self)@[k],
                        address@,
                    ) by {
                        if k != i as int {
                            if (i as int) < k {
                                assert(old(self)@[i as int].id != old(self)@[k].id);
                            }
                            assert(false);
                        }
                    }
                    assert forall|a: int, b: int| 0 <= a < b < self@.len() implies (
                    #[trigger] self@[a]).id != (#[trigger] self@[b]).id by {
                        assert(old(self)@[a].id != old(self)@[b].id);
                        assert(self@[a].id == old(self)@[a].id);
                        assert(self@[b].id == old(self)@[b].id);
                    }
                }
                return;
            }
            i = i + 1;
        }
    }

    /// Reverse lookup: the flow control id of the most recently
    /// registered entry whose producer or linked addresses contain
    /// `address`, or none when no entry's trusted identity contains it.
    pub fn find_flow_control_with_producer_address(&self, address: &Address) -> (r: Option<
        FlowControlId,
    >)
        ensures
            match r {
                Some(id) => exists|i: int|
                    is_last_owner(self@, address@, i) && id@ == (#[trigger] self@[i]).id,
                None => !owner_exists(self@, address@),
            },
    {
        let mut i: usize = self.entries.len();
        while i > 0
            invariant
                i <= self.entries.len(),
                forall|j: int|
                    i <= j < self@.len() ==> !entry_owns(#[trigger] self@[j], address@),
            decreases i,
        {
            i = i - 1;
            if self.entries[i].owns_address(address) {
                proof {
                    assert(is_last_owner(self@, address@, i as int));
                }
                return Some(self.entries[i].flow_control_id.clone());
            }
        }
        None
    }

    /// The number of addresses in the consumer set of the entry for
    /// `flow_control_id`, or none when the registry has no such entry.
    pub fn consumer_count(&self, flow_control_id: &FlowControlId) -> (r: Option<usize>)
        requires
            self.wf(),
        ensures
            match r {
                Some(n) => exists|i: int|
                    0 <= i < self@.len() && (#[trigger] self@[i]).id == flow_control_id@ && n
                        == self@[i].consumers.len(),
                None => !has_id(self@, flow_control_id@),
            },
    {
        let mut i: usize = 0;
        while i < self.entries.len()
            invariant
                i <= self.entries.len(),
                forall|j: int| 0 <= j < i ==> (#[trigger] self@[j]).id != flow_control_id@,
            decreases self.entries.len() - i,
        {
            if self.entries[i].flow_control_id == *flow_control_id {
                proof {
                    assert(self@[i as int].id == flow_control_id@);
                    assert(self@[i as int].consumers.len() == addr_views(
                        self.entries@[i as int].consumers@,
                    ).len());
                }
                return Some(self.entries[i].consumers.len());
            }
            i = i + 1;
        }
        None
    }

    /// Whether sending to `destination` under `flow_control_id` is
    /// authorized: some entry carries the id and has the destination in
    /// its trusted identity or consumer set.
    pub fn is_authorized(&self, flow_control_id: &FlowControlId, destination: &Address) -> (r:
        bool)
        ensures
            r == flow_allows(self@, flow_control_id@, destination@),
    {
        let mut i: usize = 0;
        while i < self.entries.len()
            invariant
                i <= self.entries.len(),
                forall|j: int|
                    0 <= j < i ==> !((#[trigger] self@[j]).id == flow_control_id@ && (entry_owns(
                        self@[j],
                        destination@,
                    ) || self@[j].consumers.contains(destination@))),
            decreases self.entries.len() - i,
        {
            if self.entries[i].flow_control_id == *flow_control_id {
                if self.entries[i].authorizes(destination) {
                    proof {
                        assert(self@[i as int].id == flow_control_id@);
                    }
                    return true;
                }
            }
            i = i + 1;
        }
        false
    }
}

} // verus!
