//! The accounts of the controller, one for each bound channel, kept in the order of
//! their channel ids.

use vstd::prelude::*;
use crate::order::id_before;
use crate::order::id_precedes;
use crate::order::lemma_id_irreflexive;
use crate::order::lemma_id_total;
use crate::order::lemma_id_transitive;
use crate::state::AccountData;
use crate::state::AccountDataView;

verus! {

/// A list of accounts, each under its channel id.
pub type Listing = Seq<(Seq<char>, AccountDataView)>;

/// Whether the channel ids of a list grow strictly from each entry to the next.
pub open spec fn ascending(l: Listing) -> bool {
    forall|i: int, j: int| 0 <= i < j < l.len() ==> id_before((#[trigger] l[i]).0, (#[trigger] l[j]).0)
}

/// Whether some entry of the list stands under `k`.
pub open spec fn has_key(l: Listing, k: Seq<char>) -> bool {
    exists|i: int| 0 <= i < l.len() && (#[trigger] l[i]).0 == k
}

/// Whether `l` lists the accounts of `m`: each once, in the order of the channel ids.
pub open spec fn is_listing_of(l: Listing, m: Map<Seq<char>, AccountDataView>) -> bool {
    &&& ascending(l)
    &&& forall|k: Seq<char>| m.dom().contains(k) <==> has_key(l, k)
    &&& forall|i: int| 0 <= i < l.len() ==> m[(#[trigger] l[i]).0] == l[i].1
}

/// Where `k` stands in the list, if it is there.
pub open spec fn index_of(l: Listing, k: Seq<char>) -> int {
    choose|i: int| 0 <= i < l.len() && (#[trigger] l[i]).0 == k
}

/// The accounts of a list, by channel id.
pub open spec fn map_of(l: Listing) -> Map<Seq<char>, AccountDataView> {
    Map::new(|k: Seq<char>| has_key(l, k), |k: Seq<char>| l[index_of(l, k)].1)
}

/// In an ascending list no channel id occurs twice.
pub proof fn lemma_ascending_distinct(l: Listing, i: int, j: int)
    requires
        ascending(l),
        0 <= i < l.len(),
        0 <= j < l.len(),
        l[i].0 == l[j].0,
    ensures
        i == j,
{
    lemma_id_irreflexive(l[i].0);
}

/// An ascending list lists the accounts of its own map.
pub proof fn lemma_map_of(l: Listing)
    requires
        ascending(l),
    ensures
        is_listing_of(l, map_of(l)),
{
    assert forall|i: int| 0 <= i < l.len() implies map_of(l)[(#[trigger] l[i]).0] == l[i].1 by {
        let k = l[i].0;
        assert(has_key(l, k));
        assert(map_of(l).dom().contains(k));
        let c = index_of(l, k);
        lemma_ascending_distinct(l, i, c);
    }
}

/// A map has one listing only: the order of the channel ids leaves no choice.
pub proof fn lemma_listing_unique(m: Map<Seq<char>, AccountDataView>, a: Listing, b: Listing)
    requires
        is_listing_of(a, m),
        is_listing_of(b, m),
    ensures
        a == b,
    decreases a.len(),
{
    if a.len() == 0 {
        if b.len() > 0 {
            assert(has_key(b, b[0].0));
            assert(has_key(a, b[0].0));
        }
        assert(a =~= b);
    } else {
        let last = a.len() - 1;
        let k = a[last].0;
        assert(has_key(a, k));
        assert(has_key(b, k));
        let pos = choose|p: int| 0 <= p < b.len() && (#[trigger] b[p]).0 == k;
        // `k` is the greatest id of `m`, so it is the last of `b` too.
        if pos < b.len() - 1 {
            let k2 = b[b.len() - 1].0;
            assert(id_before(b[pos].0, b[b.len() - 1].0));
            assert(has_key(b, k2));
            assert(has_key(a, k2));
            let q = choose|q: int| 0 <= q < a.len() && (#[trigger] a[q]).0 == k2;
            if q < last {
                assert(id_before(a[q].0, a[last].0));
                lemma_id_transitive(k, k2, k);
            }
            lemma_id_irreflexive(k);
            assert(false);
        }
        let m2 = m.remove(k);
        let a2 = a.drop_last();
        let b2 = b.drop_last();
        assert(is_listing_of(a2, m2)) by {
            lemma_drop_last(a, m);
        }
        assert(is_listing_of(b2, m2)) by {
            lemma_drop_last(b, m);
        }
        lemma_listing_unique(m2, a2, b2);
        assert(a[last].1 == m[k]);
        assert(b[pos].1 == m[k]);
        assert(a =~= a2.push(a[last]));
        assert(b =~= b2.push(b[pos]));
        assert(a[last] == b[pos]);
    }
}

proof fn lemma_drop_last(l: Listing, m: Map<Seq<char>, AccountDataView>)
    requires
        is_listing_of(l, m),
        l.len() > 0,
    ensures
        is_listing_of(l.drop_last(), m.remove(l[l.len() - 1].0)),
{
    let last = l.len() - 1;
    let k = l[last].0;
    let l2 = l.drop_last();
    let m2 = m.remove(k);
    assert forall|i: int, j: int| 0 <= i < j < l2.len() implies id_before(
        (#[trigger] l2[i]).0,
        (#[trigger] l2[j]).0,
    ) by {
        assert(id_before(l[i].0, l[j].0));
    }
    assert forall|x: Seq<char>| m2.dom().contains(x) <==> has_key(l2, x) by {
        if m2.dom().contains(x) {
            assert(has_key(l, x));
            let p = choose|p: int| 0 <= p < l.len() && (#[trigger] l[p]).0 == x;
            assert(l2[p].0 == x);
        }
        if has_key(l2, x) {
            let p = choose|p: int| 0 <= p < l2.len() && (#[trigger] l2[p]).0 == x;
            assert(l[p].0 == x);
            assert(has_key(l, x));
            lemma_id_irreflexive(k);
            assert(id_before(l[p].0, l[last].0));
        }
    }
    assert forall|i: int| 0 <= i < l2.len() implies m2[(#[trigger] l2[i]).0] == l2[i].1 by {
        assert(l[i].0 == l2[i].0);
        assert(id_before(l[i].0, l[last].0));
        lemma_id_irreflexive(k);
    }
}

/// An id that falls between two neighbours of an ascending list is not in it.
proof fn lemma_gap(l: Listing, at: int, k: Seq<char>)
    requires
        ascending(l),
        0 <= at <= l.len(),
        forall|j: int| 0 <= j < at ==> id_before((#[trigger] l[j]).0, k),
        at < l.len() ==> id_before(k, l[at].0),
    ensures
        !has_key(l, k),
        forall|j: int| at <= j < l.len() ==> id_before(k, (#[trigger] l[j]).0),
{
    assert forall|j: int| at <= j < l.len() implies id_before(k, (#[trigger] l[j]).0) by {
        if at < j {
            assert(id_before(l[at].0, l[j].0));
            lemma_id_transitive(k, l[at].0, l[j].0);
        }
    }
    if has_key(l, k) {
        let p = choose|p: int| 0 <= p < l.len() && (#[trigger] l[p]).0 == k;
        lemma_id_irreflexive(k);
        if p < at {
            assert(id_before(l[p].0, k));
        } else {
            assert(id_before(k, l[p].0));
        }
    }
}

/// Putting a new id at its place keeps the list ascending and adds one account.
proof fn lemma_insert(l: Listing, at: int, k: Seq<char>, v: AccountDataView)
    requires
        ascending(l),
        0 <= at <= l.len(),
        forall|j: int| 0 <= j < at ==> id_before((#[trigger] l[j]).0, k),
        at < l.len() ==> id_before(k, l[at].0),
    ensures
        ascending(l.insert(at, (k, v))),
        map_of(l.insert(at, (k, v))) == map_of(l).insert(k, v),
{
    let n = l.insert(at, (k, v));
    lemma_gap(l, at, k);
    assert forall|i: int, j: int| 0 <= i < j < n.len() implies id_before(
        (#[trigger] n[i]).0,
        (#[trigger] n[j]).0,
    ) by {
        if j < at {
            assert(id_before(l[i].0, l[j].0));
        } else if j == at {
            assert(id_before(l[i].0, k));
        } else if i < at {
            assert(id_before(l[i].0, l[j - 1].0));
        } else if i == at {
            assert(id_before(k, l[j - 1].0));
        } else {
            assert(id_before(l[i - 1].0, l[j - 1].0));
        }
    }
    lemma_map_of(l);
    lemma_map_of(n);
    assert forall|x: Seq<char>| has_key(n, x) <==> (x == k || has_key(l, x)) by {
        if has_key(n, x) {
            let p = choose|p: int| 0 <= p < n.len() && (#[trigger] n[p]).0 == x;
            if p < at {
                assert(l[p].0 == x);
            } else if p > at {
                assert(l[p - 1].0 == x);
            }
        }
        if x == k {
            assert(n[at].0 == x);
        }
        if has_key(l, x) {
            let p = choose|p: int| 0 <= p < l.len() && (#[trigger] l[p]).0 == x;
            if p < at {
                assert(n[p].0 == x);
            } else {
                assert(n[p + 1].0 == x);
            }
        }
    }
    assert forall|x: Seq<char>| has_key(n, x) implies map_of(n)[x] == map_of(l).insert(k, v)[x] by {
        let p = choose|p: int| 0 <= p < n.len() && (#[trigger] n[p]).0 == x;
        assert(map_of(n)[n[p].0] == n[p].1);
        if p < at {
            assert(map_of(l)[l[p].0] == l[p].1);
        } else if p > at {
            assert(map_of(l)[l[p - 1].0] == l[p - 1].1);
        }
    }
    assert(map_of(n) =~= map_of(l).insert(k, v));
}

/// Replacing the account of an entry keeps the list ascending and changes that account.
proof fn lemma_update(l: Listing, at: int, v: AccountDataView)
    requires
        ascending(l),
        0 <= at < l.len(),
    ensures
        ascending(l.update(at, (l[at].0, v))),
        map_of(l.update(at, (l[at].0, v))) == map_of(l).insert(l[at].0, v),
{
    let k = l[at].0;
    let n = l.update(at, (k, v));
    assert forall|i: int, j: int| 0 <= i < j < n.len() implies id_before(
        (#[trigger] n[i]).0,
        (#[trigger] n[j]).0,
    ) by {
        assert(id_before(l[i].0, l[j].0));
    }
    lemma_map_of(l);
    lemma_map_of(n);
    assert forall|x: Seq<char>| has_key(n, x) <==> has_key(l, x) by {
        if has_key(n, x) {
            let p = choose|p: int| 0 <= p < n.len() && (#[trigger] n[p]).0 == x;
            assert(l[p].0 == x);
        }
        if has_key(l, x) {
            let p = choose|p: int| 0 <= p < l.len() && (#[trigger] l[p]).0 == x;
            assert(n[p].0 == x);
        }
    }
    assert(has_key(l, k));
    assert forall|x: Seq<char>| has_key(n, x) implies map_of(n)[x] == map_of(l).insert(k, v)[x] by {
        let p = choose|p: int| 0 <= p < n.len() && (#[trigger] n[p]).0 == x;
        assert(map_of(n)[n[p].0] == n[p].1);
        if p != at {
            assert(map_of(l)[l[p].0] == l[p].1);
            if l[p].0 == k {
                lemma_ascending_distinct(l, p, at);
            }
        }
    }
    assert(map_of(n) =~= map_of(l).insert(k, v));
}

/// Taking an entry out keeps the list ascending and drops that account.
proof fn lemma_remove(l: Listing, at: int)
    requires
        ascending(l),
        0 <= at < l.len(),
    ensures
        ascending(l.remove(at)),
        map_of(l.remove(at)) == map_of(l).remove(l[at].0),
{
    let k = l[at].0;
    let n = l.remove(at);
    assert forall|i: int, j: int| 0 <= i < j < n.len() implies id_before(
        (#[trigger] n[i]).0,
        (#[trigger] n[j]).0,
    ) by {
        let earlier = if i < at { i } else { i + 1 };
        let later = if j < at { j } else { j + 1 };
        assert(id_before(l[earlier].0, l[later].0));
    }
    lemma_map_of(l);
    lemma_map_of(n);
    assert forall|x: Seq<char>| has_key(n, x) <==> (x != k && has_key(l, x)) by {
        if has_key(n, x) {
            let p = choose|p: int| 0 <= p < n.len() && (#[trigger] n[p]).0 == x;
            let before_removal = if p < at { p } else { p + 1 };
            assert(l[before_removal].0 == x);
            if x == k {
                lemma_ascending_distinct(l, before_removal, at);
            }
        }
        if x != k && has_key(l, x) {
            let p = choose|p: int| 0 <= p < l.len() && (#[trigger] l[p]).0 == x;
            let after_removal = if p < at { p } else { p - 1 };
            assert(n[after_removal].0 == x);
        }
    }
    assert forall|x: Seq<char>| has_key(n, x) implies map_of(n)[x] == map_of(l).remove(k)[x] by {
        let p = choose|p: int| 0 <= p < n.len() && (#[trigger] n[p]).0 == x;
        let before_removal = if p < at { p } else { p + 1 };
        assert(map_of(n)[n[p].0] == n[p].1);
        assert(map_of(l)[l[before_removal].0] == l[before_removal].1);
    }
    assert(map_of(n) =~= map_of(l).remove(k));
}

/// One account under its channel id.
#[derive(Debug)]
struct Slot {
    channel_id: String,
    account: AccountData,
}

/// The accounts of the controller. There is one for a channel from the moment the
/// channel is bound until it is closed.
#[derive(Debug)]
pub struct Registry {
    slots: Vec<Slot>,
}

impl View for Registry {
    type V = Map<Seq<char>, AccountDataView>;

    closed spec fn view(&self) -> Map<Seq<char>, AccountDataView> {
        map_of(self.listing())
    }
}

impl Registry {
    /// The accounts in the order in which they are kept.
    spec fn listing(&self) -> Listing {
        Seq::new(self.slots.len() as nat, |i: int| (self.slots[i].channel_id@, self.slots[i].account@))
    }

    #[verifier::type_invariant]
    spec fn well_formed(&self) -> bool {
        ascending(self.listing())
    }

    /// A registry without accounts.
    pub fn new() -> (r: Registry)
        ensures
            r@ == Map::<Seq<char>, AccountDataView>::empty(),
    {
        let r = Registry { slots: Vec::new() };
        assert(r@ =~= Map::<Seq<char>, AccountDataView>::empty());
        r
    }

    /// The place of `channel_id`: the index of its entry, or of the first entry behind
    /// it. Found by halving the list.
    fn locate(&self, channel_id: &str) -> (r: (usize, bool))
        ensures
            r.0 <= self.listing().len(),
            forall|j: int| 0 <= j < r.0 ==> id_before((#[trigger] self.listing()[j]).0, channel_id@),
            r.1 ==> r.0 < self.listing().len() && self.listing()[r.0 as int].0 == channel_id@,
            !r.1 && r.0 < self.listing().len() ==> id_before(channel_id@, self.listing()[r.0 as int].0),
            r.1 == self@.dom().contains(channel_id@),
            ascending(self.listing()),
    {
        proof {
            use_type_invariant(self);
        }
        let ghost l = self.listing();
        let mut low: usize = 0;
        let mut high: usize = self.slots.len();
        while low < high
            invariant
                low <= high <= self.slots.len(),
                l == self.listing(),
                l.len() == self.slots.len(),
                ascending(l),
                forall|j: int| 0 <= j < low ==> id_before((#[trigger] l[j]).0, channel_id@),
                forall|j: int| high <= j < l.len() ==> !id_before((#[trigger] l[j]).0, channel_id@),
            decreases high - low,
        {
            let mid = low + (high - low) / 2;
            assert(l[mid as int].0 == self.slots[mid as int].channel_id@);
            if id_precedes(self.slots[mid].channel_id.as_str(), channel_id) {
                assert forall|j: int| 0 <= j < mid + 1 implies id_before((#[trigger] l[j]).0, channel_id@) by {
                    if j < mid {
                        assert(id_before(l[j].0, l[mid as int].0));
                        lemma_id_transitive(l[j].0, l[mid as int].0, channel_id@);
                    }
                }
                low = mid + 1;
            } else {
                assert forall|j: int| mid <= j < l.len() implies !id_before((#[trigger] l[j]).0, channel_id@) by {
                    if mid < j && id_before(l[j].0, channel_id@) {
                        assert(id_before(l[mid as int].0, l[j].0));
                        lemma_id_transitive(l[mid as int].0, l[j].0, channel_id@);
                    }
                }
                high = mid;
            }
        }
        let found = if low < self.slots.len() {
            assert(l[low as int].0 == self.slots[low as int].channel_id@);
            proof {
                lemma_id_total(self.slots[low as int].channel_id@, channel_id@);
            }
            !id_precedes(channel_id, self.slots[low].channel_id.as_str())
        } else {
            false
        };
        proof {
            if found {
                assert(has_key(l, channel_id@));
            } else {
                lemma_gap(l, low as int, channel_id@);
            }
        }
        (low, found)
    }

    /// Whether the channel has an account.
    pub fn has(&self, channel_id: &str) -> (b: bool)
        ensures
            b == self@.dom().contains(channel_id@),
    {
        self.locate(channel_id).1
    }

    /// The account of the channel, if it has one.
    pub fn may_load(&self, channel_id: &str) -> (r: Option<AccountData>)
        ensures
            r is Some == self@.dom().contains(channel_id@),
            r matches Some(a) ==> a@ == self@[channel_id@],
    {
        let (at, found) = self.locate(channel_id);
        if found {
            proof {
                lemma_map_of(self.listing());
                assert(self@[self.listing()[at as int].0] == self.listing()[at as int].1);
            }
            Some(self.slots[at].account.clone())
        } else {
            None
        }
    }

    /// Hands out the entries and leaves the registry empty.
    fn take_slots(&mut self) -> (slots: Vec<Slot>)
        ensures
            slots == old(self).slots,
    {
        let mut taken = Registry { slots: Vec::new() };
        core::mem::swap(self, &mut taken);
        taken.slots
    }

    /// Puts `account` under `channel_id`, in place of the account that was there, if any.
    pub fn save(&mut self, channel_id: String, account: AccountData)
        ensures
            final(self)@ == old(self)@.insert(channel_id@, account@),
    {
        let (at, found) = self.locate(channel_id.as_str());
        let ghost before = self.listing();
        let ghost entry = (channel_id@, account@);
        let mut slots = self.take_slots();
        if found {
            slots.remove(at);
        }
        slots.insert(at, Slot { channel_id, account });
        proof {
            let after = Seq::new(slots.len() as nat, |i: int| (slots[i].channel_id@, slots[i].account@));
            if found {
                lemma_update(before, at as int, account@);
                assert(after =~= before.update(at as int, entry));
            } else {
                lemma_insert(before, at as int, channel_id@, account@);
                assert(after =~= before.insert(at as int, entry));
            }
        }
        *self = Registry { slots };
    }

    /// Drops the account of the channel. A channel without an account is left so.
    pub fn remove(&mut self, channel_id: &str)
        ensures
            final(self)@ == old(self)@.remove(channel_id@),
    {
        let (at, found) = self.locate(channel_id);
        let ghost before = self.listing();
        if found {
            let mut slots = self.take_slots();
            slots.remove(at);
            proof {
                let after = Seq::new(slots.len() as nat, |i: int| (slots[i].channel_id@, slots[i].account@));
                lemma_remove(before, at as int);
                assert(after =~= before.remove(at as int));
            }
            *self = Registry { slots };
        } else {
            assert(self@ =~= self@.remove(channel_id@));
        }
    }

    /// All accounts, in the order of their channel ids.
    pub fn range(&self) -> (v: Vec<(String, AccountData)>)
        ensures
            is_listing_of(v.deep_view(), self@),
    {
        proof {
            use_type_invariant(self);
            lemma_map_of(self.listing());
        }
        let mut v: Vec<(String, AccountData)> = Vec::new();
        let mut i: usize = 0;
        while i < self.slots.len()
            invariant
                i <= self.slots.len(),
                v.len() == i,
                forall|j: int| 0 <= j < i ==> (#[trigger] v[j]).deep_view() == self.listing()[j],
            decreases self.slots.len() - i,
        {
            v.push((self.slots[i].channel_id.clone(), self.slots[i].account.clone()));
            i = i + 1;
        }
        assert(v.deep_view() =~= self.listing());
        v
    }
}

} // verus!
