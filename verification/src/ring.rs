//! Ring of fixed capacity that tracks in-flight orders.
//!
//! The capacity is a compile-time constant, and small: look-ups scan the ring, from its lowest slot
//! up. Orders take the slots in turn. The oldest entry is overwritten when the ring is full.

use vstd::prelude::*;

use crate::types::{Fixed64, OrderStatus, Side};

verus! {

/// An order that was sent and is not settled yet.
#[derive(Debug, Clone)]
pub struct InFlightOrder {
    pub client_id: u64,
    pub exchange_id: String,
    pub symbol: &'static str,
    pub side: Side,
    pub price: Fixed64,
    pub qty: u64,
    pub status: OrderStatus,
}

/// What a ring holds.
#[verifier::ext_equal]
pub struct RingModel {
    /// The orders by slot.
    pub slots: Seq<Option<InFlightOrder>>,
    /// The slots in use, the one with the oldest order first.
    pub ages: Seq<int>,
    /// Where the search for a free slot begins: behind the slot that was filled last.
    pub next: int,
}

/// The slot with index `i`, where the one behind the last of `n` is the first.
pub open spec fn wrapped(i: int, n: int) -> int {
    if i >= n {
        i - n
    } else {
        i
    }
}

/// The slots are `n`, and the list of ages names exactly those in use, each once.
pub open spec fn valid(m: RingModel, n: int) -> bool {
    &&& m.slots.len() == n
    &&& 0 <= m.next
    &&& 0 < n ==> m.next < n
    &&& m.ages.no_duplicates()
    &&& forall|k: int| 0 <= k < m.ages.len() ==> 0 <= (#[trigger] m.ages[k]) < n
    &&& forall|i: int| 0 <= i < n ==> (#[trigger] m.slots[i] is Some <==> m.ages.contains(i))
}

/// A ring of `n` slots with no order in it.
pub open spec fn empty_ring(n: nat) -> RingModel {
    RingModel { slots: Seq::new(n, |i: int| None), ages: Seq::empty(), next: 0 }
}

/// The slot holds an order with this identifier.
pub open spec fn holds(slot: Option<InFlightOrder>, client_id: u64) -> bool {
    slot is Some && slot->0.client_id == client_id
}

/// Lowest slot at or above `from` that holds an order with this identifier.
pub open spec fn slot_of(
    slots: Seq<Option<InFlightOrder>>,
    client_id: u64,
    from: int,
) -> Option<int>
    decreases slots.len() - from,
{
    if from < 0 || from >= slots.len() {
        None
    } else if holds(slots[from], client_id) {
        Some(from)
    } else {
        slot_of(slots, client_id, from + 1)
    }
}

/// The order with this identifier, the one in the lowest slot if there are several.
pub open spec fn found(slots: Seq<Option<InFlightOrder>>, client_id: u64) -> Option<InFlightOrder> {
    match slot_of(slots, client_id, 0) {
        Some(i) => slots[i],
        None => None,
    }
}

/// First free slot on the way round the ring that begins `k` slots behind `next`.
pub open spec fn free_slot(slots: Seq<Option<InFlightOrder>>, next: int, k: int) -> Option<int>
    decreases slots.len() - k,
{
    if k < 0 || k >= slots.len() {
        None
    } else if slots[wrapped(next + k, slots.len() as int)] is None {
        Some(wrapped(next + k, slots.len() as int))
    } else {
        free_slot(slots, next, k + 1)
    }
}

/// The slot that takes the next order: the first free one, or that of the oldest order if none is
/// free.
pub open spec fn place(m: RingModel) -> int {
    match free_slot(m.slots, m.next, 0) {
        Some(i) => i,
        None => m.ages[0],
    }
}

/// The ring after an insertion. The oldest order makes way if no slot is free.
pub open spec fn after_insert(m: RingModel, order: InFlightOrder) -> RingModel {
    let i = place(m);
    RingModel {
        slots: m.slots.update(i, Some(order)),
        ages: if m.slots[i] is Some {
            m.ages.skip(1).push(i)
        } else {
            m.ages.push(i)
        },
        next: wrapped(i + 1, m.slots.len() as int),
    }
}

/// The ring after an acknowledgement: the order with the identifier takes the status and the
/// exchange identifier.
pub open spec fn after_update(
    m: RingModel,
    client_id: u64,
    exchange_id: String,
    status: OrderStatus,
) -> RingModel {
    match slot_of(m.slots, client_id, 0) {
        Some(i) => RingModel {
            slots: m.slots.update(
                i,
                Some(InFlightOrder { exchange_id, status, ..m.slots[i]->0 }),
            ),
            ..m
        },
        None => m,
    }
}

/// The ring without the order that has the identifier.
pub open spec fn after_remove(m: RingModel, client_id: u64) -> RingModel {
    match slot_of(m.slots, client_id, 0) {
        Some(i) => RingModel {
            slots: m.slots.update(i, None),
            ages: m.ages.remove(m.ages.index_of(i)),
            ..m
        },
        None => m,
    }
}

/// The orders by age, oldest first.
pub open spec fn by_age(m: RingModel) -> Seq<InFlightOrder> {
    m.ages.map_values(|i: int| m.slots[i]->0)
}

/// At most `N` in-flight orders.
pub struct OrderRing<const N: usize> {
    slots: Vec<Option<InFlightOrder>>,
    /// The slots in use, the one with the oldest order first.
    ages: Vec<usize>,
    /// Behind the slot that was filled last.
    next: usize,
}

impl<const N: usize> View for OrderRing<N> {
    type V = RingModel;

    closed spec fn view(&self) -> RingModel {
        RingModel {
            slots: self.slots@,
            ages: self.ages@.map_values(|i: usize| i as int),
            next: self.next as int,
        }
    }
}

impl<const N: usize> OrderRing<N> {
    /// The slots and the list of ages agree.
    pub open spec fn wf(self) -> bool {
        valid(self@, N as int)
    }

    /// The order with this identifier, the one in the lowest slot if there are several.
    pub open spec fn lookup(self, client_id: u64) -> Option<InFlightOrder> {
        found(self@.slots, client_id)
    }

    /// An empty ring.
    pub fn new() -> (r: Self)
        ensures
            r.wf(),
            r@ == empty_ring(N as nat),
    {
        let mut slots: Vec<Option<InFlightOrder>> = Vec::with_capacity(N);
        while slots.len() < N
            invariant
                slots@.len() <= N,
                forall|i: int| 0 <= i < slots@.len() ==> #[trigger] slots@[i] is None,
            decreases N - slots@.len(),
        {
            slots.push(None);
        }
        let r = Self { slots, ages: Vec::new(), next: 0 };
        assert(r@ =~= empty_ring(N as nat));
        r
    }

    /// First free slot behind the one that was filled last.
    fn free(&self) -> (r: Option<usize>)
        requires
            self.wf(),
            N > 0,
        ensures
            match r {
                Some(i) => free_slot(self@.slots, self@.next, 0) == Some(i as int),
                None => free_slot(self@.slots, self@.next, 0) is None,
            },
    {
        let mut i: usize = self.next;
        let mut k: usize = 0;
        while k < N
            invariant
                k <= N,
                self.next < N,
                self.slots@.len() == N,
                i == wrapped(self.next + k, N as int),
                free_slot(self.slots@, self.next as int, 0) == free_slot(
                    self.slots@,
                    self.next as int,
                    k as int,
                ),
            decreases N - k,
        {
            if self.slots[i].is_none() {
                return Some(i);
            }
            i = if i + 1 == N {
                0
            } else {
                i + 1
            };
            k = k + 1;
        }
        None
    }

    /// Adds an order; the oldest makes way if the ring is full. Hands back the identifier of an
    /// order that made way.
    pub fn insert(&mut self, order: InFlightOrder) -> (r: Option<u64>)
        requires
            old(self).wf(),
            N > 0,
        ensures
            final(self).wf(),
            final(self)@ == after_insert(old(self)@, order),
            r == match old(self)@.slots[place(old(self)@)] {
                Some(o) => Some(o.client_id),
                None => None,
            },
    {
        proof {
            place_is_sound(self@, N as int);
            insertion_keeps_valid(self@, order, N as int);
        }
        let (slot, evicted): (usize, Option<u64>) = match self.free() {
            Some(i) => (i, None),
            None => {
                let i: usize = self.ages.remove(0);
                assert(i == place(old(self)@));
                match &self.slots[i] {
                    Some(o) => (i, Some(o.client_id)),
                    None => (i, None),
                }
            },
        };
        self.slots.set(slot, Some(order));
        self.ages.push(slot);
        self.next = if slot + 1 == N {
            0
        } else {
            slot + 1
        };
        assert(self@ =~= after_insert(old(self)@, order));
        evicted
    }

    /// Lowest slot that holds an order with this identifier.
    fn position(&self, client_id: u64) -> (r: Option<usize>)
        requires
            self.wf(),
        ensures
            match r {
                Some(i) => {
                    &&& slot_of(self@.slots, client_id, 0) == Some(i as int)
                    &&& i < N
                    &&& self@.slots[i as int] is Some
                },
                None => slot_of(self@.slots, client_id, 0) is None,
            },
    {
        let mut i: usize = 0;
        while i < self.slots.len()
            invariant
                i <= self.slots@.len(),
                self.slots@.len() == N,
                slot_of(self.slots@, client_id, 0) == slot_of(self.slots@, client_id, i as int),
            decreases self.slots@.len() - i,
        {
            if let Some(o) = &self.slots[i] {
                if o.client_id == client_id {
                    return Some(i);
                }
            }
            i = i + 1;
        }
        None
    }

    /// The order with this identifier.
    pub fn find_by_client_id(&self, client_id: u64) -> (r: Option<&InFlightOrder>)
        requires
            self.wf(),
        ensures
            match r {
                Some(o) => self.lookup(client_id) == Some(*o),
                None => self.lookup(client_id) is None,
            },
    {
        match self.position(client_id) {
            Some(i) => self.slots[i].as_ref(),
            None => None,
        }
    }

    /// Sets status and exchange identifier of the order with this identifier, if there is one.
    pub fn update_status(&mut self, client_id: u64, exchange_id: String, status: OrderStatus)
        requires
            old(self).wf(),
        ensures
            final(self).wf(),
            final(self)@ == after_update(old(self)@, client_id, exchange_id, status),
    {
        if let Some(i) = self.position(client_id) {
            if let Some(o) = &self.slots[i] {
                let updated = InFlightOrder {
                    client_id: o.client_id,
                    exchange_id,
                    symbol: o.symbol,
                    side: o.side,
                    price: o.price,
                    qty: o.qty,
                    status,
                };
                self.slots.set(i, Some(updated));
            }
        }
    }

    /// Takes out the order with this identifier, if there is one.
    pub fn remove(&mut self, client_id: u64)
        requires
            old(self).wf(),
        ensures
            final(self).wf(),
            final(self)@ == after_remove(old(self)@, client_id),
    {
        if let Some(i) = self.position(client_id) {
            proof {
                removal_keeps_valid(self@, client_id, N as int);
            }
            let ghost before = self@;
            assert(before.ages.contains(i as int));
            let mut k: usize = 0;
            while self.ages[k] != i
                invariant
                    k < self.ages.len(),
                    before.ages == self.ages@.map_values(|j: usize| j as int),
                    k <= before.ages.index_of(i as int) < before.ages.len(),
                    before.ages[before.ages.index_of(i as int)] == i,
                decreases self.ages@.len() - k,
            {
                k = k + 1;
            }
            assert(k == before.ages.index_of(i as int)) by {
                assert(before.ages[k as int] == i);
                assert(before.ages.no_duplicates());
            }
            self.slots.set(i, None);
            self.ages.remove(k);
            assert(self@ =~= after_remove(before, client_id));
        }
    }
}

impl<const N: usize> Default for OrderRing<N> {
    fn default() -> (r: Self)
        ensures
            r.wf(),
            r@ == empty_ring(N as nat),
    {
        Self::new()
    }
}

/// No two orders have the same identifier.
pub open spec fn distinct_ids(slots: Seq<Option<InFlightOrder>>) -> bool {
    forall|i: int, j: int|
        0 <= i < j < slots.len() && (#[trigger] slots[i]) is Some && (#[trigger] slots[j]) is Some
            ==> slots[i]->0.client_id != slots[j]->0.client_id
}

/// The order found under an identifier has it, none in a lower slot does, and none is found exactly
/// if no order has it.
pub proof fn slot_is_lowest(slots: Seq<Option<InFlightOrder>>, client_id: u64, from: int)
    requires
        0 <= from,
    ensures
        match slot_of(slots, client_id, from) {
            Some(i) => {
                &&& from <= i < slots.len()
                &&& holds(slots[i], client_id)
                &&& forall|j: int| from <= j < i ==> !holds(#[trigger] slots[j], client_id)
            },
            None => forall|j: int|
                from <= j < slots.len() ==> !holds(#[trigger] slots[j], client_id),
        },
    decreases slots.len() - from,
{
    if from < slots.len() && !holds(slots[from], client_id) {
        slot_is_lowest(slots, client_id, from + 1);
    }
}

/// A free slot is found if there is one, and it is free.
proof fn free_slot_is_free(slots: Seq<Option<InFlightOrder>>, next: int, k: int)
    requires
        0 <= next < slots.len(),
        0 <= k <= slots.len(),
    ensures
        match free_slot(slots, next, k) {
            Some(i) => 0 <= i < slots.len() && slots[i] is None,
            None => forall|j: int|
                k <= j < slots.len() ==> (#[trigger] slots[wrapped(
                    next + j,
                    slots.len() as int,
                )]) is Some,
        },
    decreases slots.len() - k,
{
    if k < slots.len() && slots[wrapped(next + k, slots.len() as int)] is Some {
        free_slot_is_free(slots, next, k + 1);
    }
}

/// The next order goes to a slot of the ring. The slot is in use only if all are, and then it is
/// that of the oldest order.
pub proof fn place_is_sound(m: RingModel, n: int)
    requires
        valid(m, n),
        0 < n,
    ensures
        0 <= place(m) < n,
        m.slots[place(m)] is Some <==> free_slot(m.slots, m.next, 0) is None,
        m.slots[place(m)] is Some ==> {
            &&& m.ages.len() > 0
            &&& place(m) == m.ages[0]
            &&& forall|i: int| 0 <= i < n ==> #[trigger] m.slots[i] is Some
        },
{
    free_slot_is_free(m.slots, m.next, 0);
    if free_slot(m.slots, m.next, 0) is None {
        assert forall|i: int| 0 <= i < n implies #[trigger] m.slots[i] is Some by {
            let j = if i >= m.next {
                i - m.next
            } else {
                i - m.next + n
            };
            assert(m.slots[wrapped(m.next + j, n)] is Some);
        }
        assert(m.slots[0] is Some);
        assert(m.ages.contains(0));
        assert(m.ages.contains(m.ages[0]));
    }
}

/// An insertion keeps the slots and the ages in agreement.
pub proof fn insertion_keeps_valid(m: RingModel, order: InFlightOrder, n: int)
    requires
        valid(m, n),
        0 < n,
    ensures
        valid(after_insert(m, order), n),
{
    place_is_sound(m, n);
    let i = place(m);
    let after = after_insert(m, order);
    let kept = if m.slots[i] is Some {
        m.ages.skip(1)
    } else {
        m.ages
    };
    assert(after.ages =~= kept.push(i));
    assert(!kept.contains(i)) by {
        if m.slots[i] is None {
            assert(!m.ages.contains(i));
        }
    }
    assert forall|j: int| 0 <= j < n implies (#[trigger] after.slots[j] is Some
        <==> after.ages.contains(j)) by {
        if j == i {
            assert(after.ages[kept.len() as int] == i);
        } else {
            assert(after.slots[j] == m.slots[j]);
            if m.ages.contains(j) {
                let k = m.ages.index_of(j);
                if m.slots[i] is Some {
                    assert(after.ages[k - 1] == j);
                } else {
                    assert(after.ages[k] == j);
                }
            }
            if after.ages.contains(j) {
                let k = after.ages.index_of(j);
                assert(kept[k] == j);
                if m.slots[i] is Some {
                    assert(m.ages[k + 1] == j);
                } else {
                    assert(m.ages[k] == j);
                }
            }
        }
    }
}

/// A removal keeps the slots and the ages in agreement, and takes one slot out of the ages.
pub proof fn removal_keeps_valid(m: RingModel, client_id: u64, n: int)
    requires
        valid(m, n),
    ensures
        valid(after_remove(m, client_id), n),
        slot_of(m.slots, client_id, 0) matches Some(i) ==> m.ages.contains(i),
{
    slot_is_lowest(m.slots, client_id, 0);
    if let Some(i) = slot_of(m.slots, client_id, 0) {
        let after = after_remove(m, client_id);
        assert(m.slots[i] is Some);
        let at = m.ages.index_of(i);
        assert(m.ages[at] == i);
        assert forall|j: int| 0 <= j < n implies (#[trigger] after.slots[j] is Some
            <==> after.ages.contains(j)) by {
            if j == i {
                if after.ages.contains(i) {
                    let k = after.ages.index_of(i);
                    assert(m.ages[if k < at { k } else { k + 1 }] == i);
                }
            } else {
                assert(after.slots[j] == m.slots[j]);
                if m.ages.contains(j) {
                    let k = m.ages.index_of(j);
                    assert(after.ages[if k < at { k } else { k - 1 }] == j);
                }
                if after.ages.contains(j) {
                    let k = after.ages.index_of(j);
                    assert(m.ages[if k < at { k } else { k + 1 }] == j);
                }
            }
        }
    }
}

/// A ring is full exactly if every slot is in use.
pub proof fn full_ring_has_no_free_slot(m: RingModel, n: int)
    requires
        valid(m, n),
    ensures
        by_age(m).len() <= n,
        by_age(m).len() == n <==> forall|i: int| 0 <= i < n ==> #[trigger] m.slots[i] is Some,
{
    let used = m.ages.to_set();
    let all = vstd::set_lib::set_int_range(0, n);
    m.ages.unique_seq_to_set();
    vstd::set_lib::lemma_int_range(0, n);
    assert(used.subset_of(all));
    vstd::set_lib::lemma_len_subset(used, all);
    if forall|i: int| 0 <= i < n ==> #[trigger] m.slots[i] is Some {
        assert forall|i: int| all.contains(i) implies used.contains(i) by {
            assert(m.slots[i] is Some);
        }
        assert(used =~= all);
    } else {
        let i = choose|i: int| 0 <= i < n && !(#[trigger] m.slots[i] is Some);
        assert(!used.contains(i));
        assert(used.subset_of(all.remove(i)));
        vstd::set_lib::lemma_len_subset(used, all.remove(i));
    }
}

/// An insertion loses an order only when the ring is full, and then only the oldest; every other
/// order keeps its place in the order of age, and the new one is the youngest.
pub proof fn insertion_loses_only_the_oldest(m: RingModel, order: InFlightOrder, n: int)
    requires
        valid(m, n),
        0 < n,
    ensures
        by_age(m).len() < n ==> by_age(after_insert(m, order)) == by_age(m).push(order),
        by_age(m).len() == n ==> by_age(after_insert(m, order)) == by_age(m).skip(1).push(order),
{
    full_ring_has_no_free_slot(m, n);
    place_is_sound(m, n);
    let i = place(m);
    let after = after_insert(m, order);
    if m.slots[i] is Some {
        assert forall|k: int| 1 <= k < m.ages.len() implies #[trigger] m.ages[k] != i by {}
        assert(by_age(after) =~= by_age(m).skip(1).push(order));
    } else {
        assert(!m.ages.contains(i));
        assert forall|k: int| 0 <= k < m.ages.len() implies #[trigger] m.ages[k] != i by {}
        assert(by_age(after) =~= by_age(m).push(order));
    }
}

/// An order that was just inserted is found under its identifier, if no other order has it.
pub proof fn inserted_order_is_found(m: RingModel, order: InFlightOrder, n: int)
    requires
        valid(m, n),
        0 < n,
        forall|j: int| 0 <= j < n ==> !holds(#[trigger] m.slots[j], order.client_id),
    ensures
        found(after_insert(m, order).slots, order.client_id) == Some(order),
{
    place_is_sound(m, n);
    let after = after_insert(m, order).slots;
    slot_is_lowest(after, order.client_id, 0);
    assert(holds(after[place(m)], order.client_id));
    if let Some(i) = slot_of(after, order.client_id, 0) {
        if i != place(m) {
            assert(after[i] == m.slots[i]);
        }
    }
}

/// An order that was removed is no longer found, if identifiers are distinct.
pub proof fn removed_order_is_gone(m: RingModel, client_id: u64)
    requires
        distinct_ids(m.slots),
    ensures
        found(after_remove(m, client_id).slots, client_id) is None,
{
    slot_is_lowest(m.slots, client_id, 0);
    let left = after_remove(m, client_id).slots;
    slot_is_lowest(left, client_id, 0);
    if let Some(i) = slot_of(m.slots, client_id, 0) {
        if let Some(j) = slot_of(left, client_id, 0) {
            assert(left[j] == m.slots[j]);
            assert(m.slots[i] is Some && m.slots[j] is Some);
        }
    }
}

/// A removal leaves what is found under every other identifier alone.
pub proof fn removal_spares_the_others(m: RingModel, client_id: u64, other_id: u64)
    requires
        other_id != client_id,
    ensures
        found(after_remove(m, client_id).slots, other_id) == found(m.slots, other_id),
{
    let left = after_remove(m, client_id).slots;
    slot_is_lowest(m.slots, client_id, 0);
    slot_is_lowest(m.slots, other_id, 0);
    same_slot_is_found(m.slots, left, other_id);
}

/// Slots that hold an identifier's orders in the same places give the same slot for it.
proof fn same_slot_is_found(
    a: Seq<Option<InFlightOrder>>,
    b: Seq<Option<InFlightOrder>>,
    client_id: u64,
)
    requires
        a.len() == b.len(),
        forall|j: int|
            0 <= j < a.len() ==> holds(#[trigger] a[j], client_id) == holds(
                #[trigger] b[j],
                client_id,
            ),
    ensures
        slot_of(a, client_id, 0) == slot_of(b, client_id, 0),
{
    slot_is_lowest(a, client_id, 0);
    slot_is_lowest(b, client_id, 0);
    if let Some(i) = slot_of(a, client_id, 0) {
        assert(holds(b[i], client_id));
    }
    if let Some(i) = slot_of(b, client_id, 0) {
        assert(holds(a[i], client_id));
    }
}

/// An update is seen under its identifier and leaves every other identifier's order alone.
pub proof fn update_is_found(
    m: RingModel,
    client_id: u64,
    exchange_id: String,
    status: OrderStatus,
    other_id: u64,
)
    requires
        other_id != client_id,
    ensures
        ({
            let next = after_update(m, client_id, exchange_id, status);
            &&& found(next.slots, client_id) == match found(m.slots, client_id) {
                Some(o) => Some(InFlightOrder { exchange_id, status, ..o }),
                None => None,
            }
            &&& found(next.slots, other_id) == found(m.slots, other_id)
            &&& next.ages == m.ages
        }),
{
    let next = after_update(m, client_id, exchange_id, status);
    slot_is_lowest(m.slots, client_id, 0);
    same_slot_is_found(m.slots, next.slots, client_id);
    same_slot_is_found(m.slots, next.slots, other_id);
    slot_is_lowest(m.slots, other_id, 0);
}

/// The ring after inserting several orders, one after another.
pub open spec fn insert_all(m: RingModel, more: Seq<InFlightOrder>) -> RingModel
    decreases more.len(),
{
    if more.len() == 0 {
        m
    } else {
        after_insert(insert_all(m, more.drop_last()), more.last())
    }
}

/// However many orders are inserted, exactly the newest stay, as many as the ring can hold.
pub proof fn newest_orders_stay(m: RingModel, more: Seq<InFlightOrder>, n: int)
    requires
        valid(m, n),
        0 < n,
    ensures
        valid(insert_all(m, more), n),
        by_age(insert_all(m, more)) == {
            let all = by_age(m) + more;
            if all.len() <= n {
                all
            } else {
                all.skip(all.len() - n)
            }
        },
    decreases more.len(),
{
    let all = by_age(m) + more;
    full_ring_has_no_free_slot(m, n);
    if more.len() == 0 {
        assert(all =~= by_age(m));
        assert(all.skip(0) =~= all);
    } else {
        let init = more.drop_last();
        newest_orders_stay(m, init, n);
        insertion_keeps_valid(insert_all(m, init), more.last(), n);
        insertion_loses_only_the_oldest(insert_all(m, init), more.last(), n);
        assert((by_age(m) + init).push(more.last()) =~= all);
        if all.len() <= n {
            assert(by_age(insert_all(m, more)) =~= all);
        } else {
            assert(by_age(insert_all(m, more)) =~= all.skip(all.len() - n));
        }
    }
}

/// The orders lie behind one another by age, the youngest just before the slot to come.
pub open spec fn in_turn(m: RingModel, n: int) -> bool {
    forall|k: int|
        0 <= k < m.ages.len() ==> (#[trigger] m.ages[k]) == wrapped(
            m.next + n - m.ages.len() + k,
            n,
        )
}

/// An empty ring takes its first slot next. While no order is removed the slots are taken in turn,
/// round and round.
pub proof fn slots_are_taken_in_turn(m: RingModel, order: InFlightOrder, n: int)
    requires
        valid(m, n),
        0 < n,
        in_turn(m, n),
    ensures
        in_turn(empty_ring(n as nat), n),
        place(empty_ring(n as nat)) == 0,
        place(m) == m.next,
        after_insert(m, order).next == wrapped(m.next + 1, n),
        in_turn(after_insert(m, order), n),
{
    place_is_sound(m, n);
    full_ring_has_no_free_slot(m, n);
    if m.slots[m.next] is Some && m.ages.len() < n {
        let k = m.ages.index_of(m.next);
        assert(m.ages[k] == m.next);
    }
    assert(place(m) == m.next);
    let after = after_insert(m, order);
    assert forall|k: int| 0 <= k < after.ages.len() implies (#[trigger] after.ages[k]) == wrapped(
        after.next + n - after.ages.len() + k,
        n,
    ) by {
        if k < after.ages.len() - 1 {
            if m.slots[m.next] is Some {
                assert(after.ages[k] == m.ages[k + 1]);
            } else {
                assert(after.ages[k] == m.ages[k]);
            }
        }
    }
}

/// An inserted order is the youngest. The ring hands back an identifier exactly when it was full,
/// and then that of the oldest order, which is the only one that leaves.
pub proof fn insertions_hand_back_the_oldest<const N: usize>(
    ring: &mut OrderRing<N>,
    order: InFlightOrder,
    r: Option<u64>,
)
    requires
        old(ring).wf(),
        N > 0,
        call_ensures(OrderRing::<N>::insert, (ring, order), r),
    ensures
        by_age(old(ring)@).len() <= N,
        r is Some <==> by_age(old(ring)@).len() == N,
        r is Some ==> {
            &&& r->0 == by_age(old(ring)@)[0].client_id
            &&& by_age(final(ring)@) == by_age(old(ring)@).skip(1).push(order)
        },
        r is None ==> by_age(final(ring)@) == by_age(old(ring)@).push(order),
{
    place_is_sound(old(ring)@, N as int);
    full_ring_has_no_free_slot(old(ring)@, N as int);
    insertion_loses_only_the_oldest(old(ring)@, order, N as int);
}

/// What is found under an identifier has it, and no order in a lower slot does. Nothing is found
/// exactly if no order has it.
pub proof fn lookups_find_the_lowest<const N: usize>(
    ring: OrderRing<N>,
    client_id: u64,
    r: Option<&InFlightOrder>,
)
    requires
        ring.wf(),
        call_ensures(OrderRing::<N>::find_by_client_id, (&ring, client_id), r),
    ensures
        r matches Some(o) ==> o.client_id == client_id && exists|i: int|
            0 <= i < ring@.slots.len() && #[trigger] ring@.slots[i] == Some(*o) && forall|j: int|
                0 <= j < i && (#[trigger] ring@.slots[j]) is Some ==> ring@.slots[j]->0.client_id
                    != client_id,
        r is None ==> forall|j: int|
            0 <= j < ring@.slots.len() && (#[trigger] ring@.slots[j]) is Some
                ==> ring@.slots[j]->0.client_id != client_id,
{
    slot_is_lowest(ring@.slots, client_id, 0);
    if r is Some {
        let i = slot_of(ring@.slots, client_id, 0)->0;
        assert(ring@.slots[i] == Some(*r->0));
        assert forall|j: int| 0 <= j < i && (#[trigger] ring@.slots[j]) is Some implies
            ring@.slots[j]->0.client_id != client_id by {
            assert(!holds(ring@.slots[j], client_id));
        }
    } else {
        assert forall|j: int|
            0 <= j < ring@.slots.len() && (#[trigger] ring@.slots[j]) is Some implies
            ring@.slots[j]->0.client_id != client_id by {
            assert(!holds(ring@.slots[j], client_id));
        }
    }
}

/// A removal takes out exactly the order that is found, and the others keep their slots and their
/// order of age. An update changes exactly the order that is found, in status and identifier of the
/// exchange alone.
pub proof fn changes_reach_the_order_found<const N: usize>(
    ring: &mut OrderRing<N>,
    other: &mut OrderRing<N>,
    client_id: u64,
    exchange_id: String,
    status: OrderStatus,
)
    requires
        old(ring).wf(),
        old(other).wf(),
        call_ensures(OrderRing::<N>::remove, (ring, client_id), ()),
        call_ensures(OrderRing::<N>::update_status, (other, client_id, exchange_id, status), ()),
    ensures
        found(old(ring)@.slots, client_id) is None ==> final(ring)@ == old(ring)@,
        found(old(ring)@.slots, client_id) is Some ==> {
            &&& by_age(final(ring)@).len() == by_age(old(ring)@).len() - 1
            &&& exists|i: int, k: int|
                {
                    &&& 0 <= i < old(ring)@.slots.len()
                    &&& 0 <= k < by_age(old(ring)@).len()
                    &&& #[trigger] old(ring)@.slots[i] == found(old(ring)@.slots, client_id)
                    &&& final(ring)@.slots == old(ring)@.slots.update(i, None)
                    &&& Some(#[trigger] by_age(old(ring)@)[k]) == found(
                        old(ring)@.slots,
                        client_id,
                    )
                    &&& by_age(final(ring)@) == by_age(old(ring)@).remove(k)
                }
        },
        final(ring)@.next == old(ring)@.next,
        found(old(other)@.slots, client_id) is None ==> final(other)@ == old(other)@,
        found(old(other)@.slots, client_id) matches Some(o) ==> {
            &&& found(final(other)@.slots, client_id) == Some(
                InFlightOrder { exchange_id, status, ..o },
            )
            &&& final(other)@.slots.len() == old(other)@.slots.len()
            &&& exists|i: int| #[trigger]
                old(other)@.slots[i] == Some(o) && final(other)@.slots == old(other)@.slots.update(
                    i,
                    Some(InFlightOrder { exchange_id, status, ..o }),
                )
        },
        final(other)@.ages == old(other)@.ages,
        final(other)@.next == old(other)@.next,
{
    let m = old(ring)@;
    slot_is_lowest(m.slots, client_id, 0);
    removal_keeps_valid(m, client_id, N as int);
    if let Some(i) = slot_of(m.slots, client_id, 0) {
        let k = m.ages.index_of(i);
        let after = after_remove(m, client_id);
        assert(m.ages.contains(i));
        assert(m.ages[k] == i);
        assert(by_age(m)[k] == m.slots[i]->0);
        assert forall|j: int| 0 <= j < after.ages.len() implies #[trigger] after.ages[j] != i by {
            assert(after.slots[after.ages[j]] is Some) by {
                assert(after.ages.contains(after.ages[j]));
            }
        }
        assert(by_age(after) =~= by_age(m).remove(k));
    }
    slot_is_lowest(old(other)@.slots, client_id, 0);
    let different: u64 = if client_id == 0 {
        1
    } else {
        0
    };
    update_is_found(old(other)@, client_id, exchange_id, status, different);
}

} // verus!
