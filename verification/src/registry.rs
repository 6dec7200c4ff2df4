//! The table of radio clients, indexed by client id.
//!
//! Each radio interface has a client whose id is its position in the table;
//! a slot stays empty until its client registers.

use vstd::prelude::*;

verus! {

/// `slots` lengthened with empty slots to at least `n` entries.
pub open spec fn grown<T>(slots: Seq<Option<T>>, n: nat) -> Seq<Option<T>> {
    if slots.len() >= n {
        slots
    } else {
        slots + Seq::new((n - slots.len()) as nat, |i: int| None::<T>)
    }
}

/// The table after `client` registers under `client_id`.
pub open spec fn registered<T>(slots: Seq<Option<T>>, client_id: u8, client: T) -> Seq<Option<T>> {
    grown(slots, client_id as nat + 1).update(client_id as int, Some(client))
}

/// The slot that a lookup by `client_id` finds: the id itself where it
/// addresses an occupied slot, nothing otherwise.
pub open spec fn live_slot<T>(slots: Seq<Option<T>>, client_id: int) -> Option<int> {
    if 0 <= client_id < slots.len() && slots[client_id] is Some {
        Some(client_id)
    } else {
        None
    }
}

/// The clients, one optional entry per client id.
pub struct ClientRegistry<T> {
    clients: Vec<Option<T>>,
}

impl<T> View for ClientRegistry<T> {
    type V = Seq<Option<T>>;

    closed spec fn view(&self) -> Seq<Option<T>> {
        self.clients@
    }
}

impl<T> ClientRegistry<T> {
    /// An empty table.
    pub fn new() -> (r: Self)
        ensures
            r@ == Seq::<Option<T>>::empty(),
    {
        ClientRegistry { clients: Vec::new() }
    }

    /// The number of slots.
    pub fn len(&self) -> (n: usize)
        ensures
            n == self@.len(),
    {
        self.clients.len()
    }

    /// Makes the table long enough to address `client_id` directly, adding
    /// empty slots at its end (`EnsureLengthAtLeast` of an `nsTArray`).
    pub fn ensure_clients_length(&mut self, client_id: u8)
        ensures
            final(self)@ == grown(old(self)@, client_id as nat + 1),
    {
        let target: usize = client_id as usize + 1;
        let ghost start = self.clients@;
        while self.clients.len() < target
            invariant
                target == client_id as nat + 1,
                start.len() <= self.clients@.len(),
                self.clients@.len() <= target || self.clients@.len() == start.len(),
                self.clients@.subrange(0, start.len() as int) == start,
                forall|i: int| start.len() <= i < self.clients@.len() ==> self.clients@[i] is None,
            decreases target - self.clients@.len(),
        {
            self.clients.push(None);
        }
        assert(self.clients@ =~= grown(start, client_id as nat + 1));
    }

    /// Registers `client` under `client_id`, replacing a client registered
    /// there before.
    pub fn register(&mut self, client_id: u8, client: T)
        ensures
            final(self)@ == registered(old(self)@, client_id, client),
    {
        self.ensure_clients_length(client_id);
        self.clients.set(client_id as usize, Some(client));
    }

    /// The client in slot `index`, if that slot exists and is occupied.
    pub fn get(&self, index: usize) -> (r: Option<&T>)
        ensures
            r matches Some(c) ==> index < self@.len() && self@[index as int] == Some(*c),
            r is None ==> index >= self@.len() || self@[index as int] is None,
    {
        if index < self.clients.len() {
            match &self.clients[index] {
                Some(c) => Some(c),
                None => None,
            }
        } else {
            None
        }
    }

    /// The slot of the client with id `client_id`, if it has registered; a
    /// negative or too large id finds nothing.
    pub fn find_live(&self, client_id: i64) -> (r: Option<usize>)
        ensures
            r matches Some(i) ==> live_slot(self@, client_id as int) == Some(i as int),
            r is None ==> live_slot(self@, client_id as int) is None,
    {
        if client_id < 0 {
            return None;
        }
        if client_id as u64 >= self.clients.len() as u64 {
            return None;
        }
        let index = client_id as usize;
        if self.clients[index].is_some() {
            Some(index)
        } else {
            None
        }
    }
}

/// After a client registers, a lookup by its id finds it, and the slot holds
/// exactly that client.
pub proof fn lemma_register_then_find<T>(slots: Seq<Option<T>>, client_id: u8, client: T)
    ensures
        live_slot(registered(slots, client_id, client), client_id as int) == Some(
            client_id as int,
        ),
        registered(slots, client_id, client)[client_id as int] == Some(client),
{
}

/// Registering a client leaves every other slot as it was: slots that
/// existed keep their entries, and slots added to reach the id are empty.
pub proof fn lemma_register_frame<T>(slots: Seq<Option<T>>, client_id: u8, client: T, other: int)
    requires
        0 <= other,
        other != client_id,
    ensures
        other < slots.len() ==> registered(slots, client_id, client)[other] == slots[other],
        slots.len() <= other < registered(slots, client_id, client).len() ==> registered(
            slots,
            client_id,
            client,
        )[other] is None,
        registered(slots, client_id, client).len() == if slots.len() > client_id as nat {
            slots.len()
        } else {
            client_id as nat + 1
        },
{
}

/// Making room for a client id twice is the same as making room once, and a
/// table never shrinks.
pub proof fn lemma_grown_idempotent<T>(slots: Seq<Option<T>>, n: nat)
    ensures
        grown(grown(slots, n), n) == grown(slots, n),
        grown(slots, n).len() >= slots.len(),
        grown(slots, n).len() >= n,
{
}

/// Every occupied slot holds the client whose id is the slot's index, as
/// `id_of` reads a client's id.
pub open spec fn slots_match_ids<T>(slots: Seq<Option<T>>, id_of: spec_fn(T) -> int) -> bool {
    forall|i: int| 0 <= i < slots.len() && #[trigger] slots[i] is Some ==> id_of(slots[i]->0) == i
}

/// A client's id always equals its slot: registering a client under its own
/// id keeps every occupied slot holding the client of that slot's id.
pub proof fn lemma_register_keeps_ids<T>(
    slots: Seq<Option<T>>,
    client_id: u8,
    client: T,
    id_of: spec_fn(T) -> int,
)
    requires
        slots_match_ids(slots, id_of),
        id_of(client) == client_id,
    ensures
        slots_match_ids(registered(slots, client_id, client), id_of),
{
    let r = registered(slots, client_id, client);
    assert forall|i: int| 0 <= i < r.len() && #[trigger] r[i] is Some implies id_of(r[i]->0) == i by {
        if i != client_id && i < slots.len() {
            assert(r[i] == slots[i]);
        }
    }
}

/// A lookup only ever finds the slot that the id names, and only when a
/// client is registered there.
pub proof fn lemma_find_live_sound<T>(slots: Seq<Option<T>>, client_id: int)
    ensures
        live_slot(slots, client_id) matches Some(i) ==> i == client_id && slots[client_id] is Some,
        live_slot(slots, client_id) is None ==> client_id < 0 || client_id >= slots.len()
            || slots[client_id] is None,
{
}

} // verus!
