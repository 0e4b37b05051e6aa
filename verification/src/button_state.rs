//! Edge detection for a family of keys or buttons, double-buffered per frame.

use crate::identity::Identity;
use std::collections::HashMap;
use vstd::prelude::*;

verus! {

broadcast use vstd::std_specs::hash::group_hash_axioms;

/// What is known of a family of identities at one moment of a frame.
#[verifier::ext_equal]
#[verifier::reject_recursive_types(K)]
pub struct Buttons<K> {
    /// The latest reported state of each identity ever reported.
    pub current: Map<K, bool>,
    /// `current` as it stood when the frame began.
    pub previous: Map<K, bool>,
    /// The identities that went down during this frame, in order of arrival.
    pub pressed: Seq<K>,
    /// The identities that came up during this frame, in order of arrival.
    pub released: Seq<K>,
}

impl<K> Buttons<K> {
    /// Nothing reported yet.
    pub open spec fn empty() -> Self {
        Buttons {
            current: Map::empty(),
            previous: Map::empty(),
            pressed: Seq::empty(),
            released: Seq::empty(),
        }
    }

    /// No identity is listed twice as pressed, nor twice as released.
    pub open spec fn wf(self) -> bool {
        self.pressed.no_duplicates() && self.released.no_duplicates()
    }

    /// The identity is down now.
    pub open spec fn held(self, k: K) -> bool {
        self.current.contains_key(k) && self.current[k]
    }

    /// The identity was down when the frame began.
    pub open spec fn was_held(self, k: K) -> bool {
        self.previous.contains_key(k) && self.previous[k]
    }

    /// The state after a report that `k` went down (`down`) or came up.
    ///
    /// A press counts as an edge only if `k` was up when the frame began, a
    /// release only if it was down then, and either is listed once per frame.
    pub open spec fn record(self, k: K, down: bool) -> Self {
        Buttons {
            current: self.current.insert(k, down),
            previous: self.previous,
            pressed: if down && !self.was_held(k) && !self.pressed.contains(k) {
                self.pressed.push(k)
            } else {
                self.pressed
            },
            released: if !down && self.was_held(k) && !self.released.contains(k) {
                self.released.push(k)
            } else {
                self.released
            },
        }
    }

    /// The state at the start of the next frame.
    pub open spec fn step(self) -> Self {
        Buttons {
            current: self.current,
            previous: self.current,
            pressed: Seq::empty(),
            released: Seq::empty(),
        }
    }
}

impl<K> Buttons<K> {
    /// The state after `n` reports in a row that `k` went down (`down`) or
    /// came up.
    pub open spec fn record_times(self, k: K, down: bool, n: nat) -> Self
        decreases n,
    {
        if n == 0 {
            self
        } else {
            self.record(k, down).record_times(k, down, (n - 1) as nat)
        }
    }

    /// The state after the reports `reports`, each an identity and whether it
    /// went down, taken in order.
    pub open spec fn record_all(self, reports: Seq<(K, bool)>) -> Self
        decreases reports.len(),
    {
        if reports.len() == 0 {
            self
        } else {
            self.record(reports[0].0, reports[0].1).record_all(reports.drop_first())
        }
    }

    /// `k` is listed as pressed (`down`) or as released.
    pub open spec fn listed(self, k: K, down: bool) -> bool {
        if down {
            self.pressed.contains(k)
        } else {
            self.released.contains(k)
        }
    }

    /// How often `k` is listed as pressed (`down`) or as released.
    pub open spec fn times_listed(self, k: K, down: bool) -> nat {
        if down {
            self.pressed.to_multiset().count(k)
        } else {
            self.released.to_multiset().count(k)
        }
    }

    /// Before any report nothing is listed twice.
    pub proof fn lemma_empty_wf()
        ensures
            Self::empty().wf(),
    {
    }

    /// A report never makes a list hold an identity twice, and never touches
    /// the snapshot.
    pub proof fn lemma_record_wf(self, k: K, down: bool)
        requires
            self.wf(),
        ensures
            self.record(k, down).wf(),
            self.record(k, down).previous == self.previous,
    {
        let next = self.record(k, down);
        if next.pressed != self.pressed {
            lemma_push_fresh(self.pressed, k);
        }
        if next.released != self.released {
            lemma_push_fresh(self.released, k);
        }
    }

    /// A new frame begins with empty lists.
    pub proof fn lemma_step_wf(self)
        ensures
            self.step().wf(),
    {
    }

    /// A report that changes `k` from what it was when the frame began
    /// leaves it listed accordingly, and down or up as reported.
    pub proof fn lemma_edge_listed(self, k: K, down: bool)
        ensures
            self.was_held(k) != down ==> self.record(k, down).listed(k, down),
            self.record(k, down).held(k) == down,
    {
        let next = self.record(k, down);
        if self.was_held(k) != down && !self.listed(k, down) {
            if down {
                assert(next.pressed.last() == k);
            } else {
                assert(next.released.last() == k);
            }
        }
    }

    /// An identity listed in a list without duplicates is listed once.
    pub proof fn lemma_listed_once(list: Seq<K>, k: K)
        requires
            list.no_duplicates(),
            list.contains(k),
        ensures
            list.to_multiset().count(k) == 1,
    {
        broadcast use vstd::seq_lib::to_multiset_contains;

        list.lemma_multiset_has_no_duplicates();
    }

    /// However often in a row one report about `k` arrives within a frame,
    /// `k` is listed exactly once if the report changes it from what it was
    /// when the frame began, and the lists stay as they are if it does not.
    /// So a key that is held down and repeats does not count as pressed anew.
    pub proof fn lemma_repeated_report(self, k: K, down: bool, n: nat)
        requires
            self.wf(),
            n >= 1,
        ensures
            self.was_held(k) != down ==> self.record_times(k, down, n).times_listed(k, down) == 1,
            self.was_held(k) == down ==> self.record_times(k, down, n).pressed == self.pressed
                && self.record_times(k, down, n).released == self.released,
            self.record_times(k, down, n).held(k) == down,
            self.record_times(k, down, n).wf(),
        decreases n,
    {
        let next = self.record(k, down);
        self.lemma_record_wf(k, down);
        self.lemma_edge_listed(k, down);
        if n == 1 {
            assert(next.record_times(k, down, 0) == next);
        } else {
            next.lemma_repeated_report(k, down, (n - 1) as nat);
            if self.was_held(k) != down {
                next.lemma_listed_stays(k, down, (n - 1) as nat);
            }
        }
        if self.was_held(k) != down {
            let last = self.record_times(k, down, n);
            if down {
                Self::lemma_listed_once(last.pressed, k);
            } else {
                Self::lemma_listed_once(last.released, k);
            }
        }
    }

    /// Further reports of the same kind about an identity that is listed
    /// change no list.
    proof fn lemma_listed_stays(self, k: K, down: bool, n: nat)
        requires
            self.listed(k, down),
        ensures
            self.record_times(k, down, n).pressed == self.pressed,
            self.record_times(k, down, n).released == self.released,
        decreases n,
    {
        if n > 0 {
            self.record(k, down).lemma_listed_stays(k, down, (n - 1) as nat);
        }
    }

    /// A report about another identity leaves `k` as it is: listed or not,
    /// down or up, now and in the snapshot.
    pub proof fn lemma_record_other(self, other: K, down: bool, k: K)
        requires
            other != k,
        ensures
            self.record(other, down).pressed.contains(k) == self.pressed.contains(k),
            self.record(other, down).released.contains(k) == self.released.contains(k),
            self.record(other, down).held(k) == self.held(k),
            self.record(other, down).was_held(k) == self.was_held(k),
    {
        let next = self.record(other, down);
        lemma_push_other(self.pressed, other, k);
        lemma_push_other(self.released, other, k);
    }

    /// An identity that no report of a frame names is listed neither as
    /// pressed nor as released in that frame, and is down throughout the
    /// frame exactly if it was down before the frame began.
    pub proof fn lemma_unreported(self, reports: Seq<(K, bool)>, k: K)
        requires
            forall|i: int| 0 <= i < reports.len() ==> (#[trigger] reports[i]).0 != k,
        ensures
            !self.step().record_all(reports).pressed.contains(k),
            !self.step().record_all(reports).released.contains(k),
            self.step().record_all(reports).held(k) == self.held(k),
    {
        self.step().lemma_record_all_other(reports, k);
    }

    /// Reports that do not name `k` leave `k` as it is.
    pub proof fn lemma_record_all_other(self, reports: Seq<(K, bool)>, k: K)
        requires
            forall|i: int| 0 <= i < reports.len() ==> (#[trigger] reports[i]).0 != k,
        ensures
            self.record_all(reports).pressed.contains(k) == self.pressed.contains(k),
            self.record_all(reports).released.contains(k) == self.released.contains(k),
            self.record_all(reports).held(k) == self.held(k),
            self.record_all(reports).was_held(k) == self.was_held(k),
        decreases reports.len(),
    {
        if reports.len() > 0 {
            let first = reports[0];
            self.lemma_record_other(first.0, first.1, k);
            let rest = reports.drop_first();
            assert forall|i: int| 0 <= i < rest.len() implies (#[trigger] rest[i]).0 != k by {
                assert(rest[i] == reports[i + 1]);
            }
            self.record(first.0, first.1).lemma_record_all_other(rest, k);
        }
    }

    /// Taking in at most one report and then others is taking in all of
    /// them in that order.
    pub proof fn lemma_record_first(self, first: Seq<(K, bool)>, rest: Seq<(K, bool)>)
        requires
            first.len() <= 1,
        ensures
            self.record_all(first + rest) == if first.len() == 0 {
                self.record_all(rest)
            } else {
                self.record(first[0].0, first[0].1).record_all(rest)
            },
    {
        if first.len() == 0 {
            assert(first + rest =~= rest);
        } else {
            assert((first + rest).drop_first() =~= rest);
        }
    }

    /// What a frame lists is the edges of the frame: an identity is listed
    /// as pressed exactly if it was up before the frame began and a press of
    /// it was reported during the frame, and as released exactly if it was
    /// down before and a release of it was reported.
    pub proof fn lemma_edges_of_frame(self, reports: Seq<(K, bool)>, k: K, down: bool)
        ensures
            self.step().record_all(reports).listed(k, down) <==> self.held(k) != down
                && reports.contains((k, down)),
    {
        self.step().lemma_listed_after(reports, k, down);
    }

    /// After any reports an identity is listed exactly if it was listed
    /// before, or one of the reports changes it from what it was when the
    /// frame began. The snapshot stays as it was.
    pub proof fn lemma_listed_after(self, reports: Seq<(K, bool)>, k: K, down: bool)
        ensures
            self.record_all(reports).listed(k, down) <==> self.listed(k, down) || (self.was_held(k)
                != down && reports.contains((k, down))),
            self.record_all(reports).previous == self.previous,
        decreases reports.len(),
    {
        if reports.len() > 0 {
            let first = reports[0];
            let rest = reports.drop_first();
            let next = self.record(first.0, first.1);
            if first.0 == k {
                self.lemma_edge_listed(k, first.1);
                lemma_push_same(self.pressed, k);
                lemma_push_same(self.released, k);
            } else {
                self.lemma_record_other(first.0, first.1, k);
            }
            assert(next.listed(k, down) <==> self.listed(k, down) || (self.was_held(k) != down
                && first == (k, down)));
            next.lemma_listed_after(rest, k, down);
            if rest.contains((k, down)) {
                let i = choose|i: int| 0 <= i < rest.len() && rest[i] == (k, down);
                assert(reports[i + 1] == (k, down));
            }
            if reports.contains((k, down)) && first != (k, down) {
                let i = choose|i: int| 0 <= i < reports.len() && reports[i] == (k, down);
                assert(rest[i - 1] == (k, down));
            }
        }
    }

    /// Stepping twice is stepping once, and stepping changes nothing about
    /// what is down.
    pub proof fn lemma_step_twice(self)
        ensures
            self.step().step() == self.step(),
            self.step().current == self.current,
            self.step().pressed == Seq::<K>::empty(),
            self.step().released == Seq::<K>::empty(),
    {
    }
}

/// Adding an item that a list without duplicates does not hold leaves it
/// without duplicates.
proof fn lemma_push_fresh<K>(list: Seq<K>, k: K)
    requires
        list.no_duplicates(),
        !list.contains(k),
    ensures
        list.push(k).no_duplicates(),
{
    let longer = list.push(k);
    assert forall|i: int, j: int|
        0 <= i < longer.len() && 0 <= j < longer.len() && i != j implies longer[i]
        != longer[j] by {
        if i < list.len() && j == list.len() {
            assert(list.contains(list[i]));
        }
        if j < list.len() && i == list.len() {
            assert(list.contains(list[j]));
        }
    }
}

/// A list holds `k` once `k` was added to it.
proof fn lemma_push_same<K>(list: Seq<K>, k: K)
    ensures
        list.push(k).contains(k),
{
    assert(list.push(k).last() == k);
}

/// Adding `other` to a list does not change whether it holds `k`.
proof fn lemma_push_other<K>(list: Seq<K>, other: K, k: K)
    requires
        other != k,
    ensures
        list.push(other).contains(k) == list.contains(k),
{
    let longer = list.push(other);
    if list.contains(k) {
        let i = choose|i: int| 0 <= i < list.len() && list[i] == k;
        assert(longer[i] == k);
    }
    if longer.contains(k) {
        let i = choose|i: int| 0 <= i < longer.len() && longer[i] == k;
        assert(list[i] == k);
    }
}

/// The tracker for one family of identities.
pub struct ButtonState<K: Identity> {
    current: HashMap<u32, bool>,
    previous: HashMap<u32, bool>,
    pressed: Vec<K>,
    released: Vec<K>,
}

/// The table `slots`, read by identity.
spec fn by_identity<K: Identity>(slots: Map<u32, bool>) -> Map<K, bool> {
    Map::new(|k: K| slots.contains_key(k.slot_of()), |k: K| slots[k.slot_of()])
}

/// Writing a slot writes the one identity filed there.
proof fn lemma_by_identity_insert<K: Identity>(slots: Map<u32, bool>, k: K, down: bool)
    ensures
        by_identity::<K>(slots.insert(k.slot_of(), down)) == by_identity::<K>(slots).insert(
            k,
            down,
        ),
{
    let lhs = by_identity::<K>(slots.insert(k.slot_of(), down));
    let rhs = by_identity::<K>(slots).insert(k, down);
    assert forall|j: K| #[trigger] lhs.dom().contains(j) <==> rhs.dom().contains(j) by {
        if j.slot_of() == k.slot_of() {
            K::lemma_slot_injective(j, k);
        }
    }
    assert forall|j: K| #[trigger] lhs.dom().contains(j) implies lhs[j] == rhs[j] by {
        if j.slot_of() == k.slot_of() {
            K::lemma_slot_injective(j, k);
        }
    }
}

/// Tells whether `k` occurs in `list`.
fn contains<K: Identity>(list: &Vec<K>, k: K) -> (found: bool)
    ensures
        found == list@.contains(k),
{
    let slot = k.slot();
    let mut i: usize = 0;
    while i < list.len()
        invariant
            i <= list.len(),
            slot == k.slot_of(),
            forall|j: int| 0 <= j < i ==> list@[j] != k,
        decreases list.len() - i,
    {
        if list[i].slot() == slot {
            proof {
                K::lemma_slot_injective(list@[i as int], k);
            }
            return true;
        }
        i += 1;
    }
    false
}

/// A list with the same items in the same order.
pub(crate) fn copy_list<T: Copy>(list: &Vec<T>) -> (copy: Vec<T>)
    ensures
        copy@ == list@,
{
    let mut copy: Vec<T> = Vec::new();
    let mut i: usize = 0;
    while i < list.len()
        invariant
            i <= list.len(),
            copy@ == list@.take(i as int),
        decreases list.len() - i,
    {
        copy.push(list[i]);
        i += 1;
    }
    copy
}

impl<K: Identity> View for ButtonState<K> {
    type V = Buttons<K>;

    closed spec fn view(&self) -> Buttons<K> {
        Buttons {
            current: by_identity(self.current@),
            previous: by_identity(self.previous@),
            pressed: self.pressed@,
            released: self.released@,
        }
    }
}

impl<K: Identity> ButtonState<K> {
    /// A tracker that has heard of no identity.
    pub fn new() -> (state: Self)
        ensures
            state@ == Buttons::<K>::empty(),
            state@.wf(),
    {
        ButtonState {
            current: HashMap::new(),
            previous: HashMap::new(),
            pressed: Vec::new(),
            released: Vec::new(),
        }
    }

    /// Takes in a report that `k` went down (`down`) or came up.
    pub fn record(&mut self, k: K, down: bool)
        ensures
            final(self)@ == old(self)@.record(k, down),
            old(self)@.wf() ==> final(self)@.wf(),
    {
        proof {
            if old(self)@.wf() {
                old(self)@.lemma_record_wf(k, down);
            }
        }
        let slot = k.slot();
        let was_held = match self.previous.get(&slot) {
            Some(state) => *state,
            None => false,
        };
        self.current.insert(slot, down);
        proof {
            lemma_by_identity_insert::<K>(old(self).current@, k, down);
        }
        if down {
            if !was_held && !contains(&self.pressed, k) {
                self.pressed.push(k);
            }
        } else {
            if was_held && !contains(&self.released, k) {
                self.released.push(k);
            }
        }
    }

    /// Begins the next frame: the current states become the snapshot and
    /// both edge lists are emptied.
    pub fn step(&mut self)
        ensures
            final(self)@ == old(self)@.step(),
            final(self)@.wf(),
    {
        self.previous = self.current.clone();
        self.pressed.clear();
        self.released.clear();
    }

    /// Tells whether `k` is down now.
    pub fn held(&self, k: K) -> (held: bool)
        ensures
            held == self@.held(k),
    {
        let slot = k.slot();
        match self.current.get(&slot) {
            Some(state) => *state,
            None => false,
        }
    }

    /// Tells whether `k` went down during this frame.
    pub fn pressed(&self, k: K) -> (pressed: bool)
        ensures
            pressed == self@.pressed.contains(k),
    {
        contains(&self.pressed, k)
    }

    /// Tells whether `k` came up during this frame.
    pub fn released(&self, k: K) -> (released: bool)
        ensures
            released == self@.released.contains(k),
    {
        contains(&self.released, k)
    }

    /// The identities that went down during this frame, in order of arrival.
    pub fn pressed_list(&self) -> (list: &Vec<K>)
        ensures
            list@ == self@.pressed,
    {
        &self.pressed
    }

    /// The identities that came up during this frame, in order of arrival.
    pub fn released_list(&self) -> (list: &Vec<K>)
        ensures
            list@ == self@.released,
    {
        &self.released
    }
}

impl<K: Identity> Clone for ButtonState<K> {
    fn clone(&self) -> (copy: Self)
        ensures
            copy@ == self@,
    {
        ButtonState {
            current: self.current.clone(),
            previous: self.previous.clone(),
            pressed: copy_list(&self.pressed),
            released: copy_list(&self.released),
        }
    }
}

} // verus!
