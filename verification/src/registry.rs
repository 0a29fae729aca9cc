//! The registry of live player instances, keyed by window label.

use vstd::prelude::*;
use vstd::string::StringExecFns;

verus! {

/// One registered instance with the label of its window.
pub struct Slot<T> {
    pub label: String,
    pub instance: T,
}

/// What `insert_if_absent` did.
pub enum InsertOutcome<E> {
    /// The label had no instance; the one that was built is registered now.
    Inserted,
    /// The label has an instance already; nothing was built.
    AlreadyPresent,
    /// The label had no instance and building one failed; nothing is
    /// registered.
    Failed(E),
}

/// A mapping from window labels to instances with at most one instance for
/// each label.
pub struct Registry<T> {
    slots: Vec<Slot<T>>,
}

/// No label occurs twice among the slots.
pub open spec fn labels_distinct<T>(slots: Seq<Slot<T>>) -> bool {
    forall|i: int, j: int|
        0 <= i < j < slots.len() ==> (#[trigger] slots[i]).label@ != (#[trigger] slots[j]).label@
}

/// Some slot at `i` has the label.
pub open spec fn slot_has<T>(slots: Seq<Slot<T>>, label: Seq<char>, i: int) -> bool {
    0 <= i < slots.len() && slots[i].label@ == label
}

/// The mapping that the slots stand for.
pub open spec fn mapping_of<T>(slots: Seq<Slot<T>>) -> Map<Seq<char>, T> {
    Map::new(
        |label: Seq<char>| exists|i: int| slot_has(slots, label, i),
        |label: Seq<char>| slots[choose|i: int| slot_has(slots, label, i)].instance,
    )
}

/// With distinct labels, the slot at `i` is what its label maps to.
pub proof fn lemma_slot_is_mapped<T>(slots: Seq<Slot<T>>, i: int)
    requires
        labels_distinct(slots),
        0 <= i < slots.len(),
    ensures
        mapping_of(slots).contains_key(slots[i].label@),
        mapping_of(slots)[slots[i].label@] == slots[i].instance,
{
    let label = slots[i].label@;
    assert(slot_has(slots, label, i));
    let c = choose|c: int| slot_has(slots, label, c);
    assert(slot_has(slots, label, c));
    if c != i {
        if c < i {
            assert(slots[c].label@ != slots[i].label@);
        } else {
            assert(slots[i].label@ != slots[c].label@);
        }
    }
}

/// Appending a slot under a new label inserts it into the mapping.
pub proof fn lemma_push_inserts<T>(slots: Seq<Slot<T>>, slot: Slot<T>)
    requires
        labels_distinct(slots),
        !mapping_of(slots).contains_key(slot.label@),
    ensures
        labels_distinct(slots.push(slot)),
        mapping_of(slots.push(slot)) == mapping_of(slots).insert(slot.label@, slot.instance),
{
    let after = slots.push(slot);
    assert forall|i: int, j: int| 0 <= i < j < after.len() implies (#[trigger] after[i]).label@ != (
    #[trigger] after[j]).label@ by {
        if j == slots.len() {
            assert(after[i] == slots[i]);
            if slots[i].label@ == slot.label@ {
                assert(slot_has(slots, slot.label@, i));
            }
        } else {
            assert(after[i] == slots[i] && after[j] == slots[j]);
        }
    }
    let want = mapping_of(slots).insert(slot.label@, slot.instance);
    assert forall|label: Seq<char>| mapping_of(after).contains_key(label) <==> want.contains_key(
        label,
    ) by {
        if mapping_of(after).contains_key(label) {
            let i = choose|i: int| slot_has(after, label, i);
            if i < slots.len() {
                assert(slot_has(slots, label, i));
            }
        }
        if want.contains_key(label) {
            if label == slot.label@ {
                assert(slot_has(after, label, slots.len() as int));
            } else {
                let i = choose|i: int| slot_has(slots, label, i);
                assert(slot_has(after, label, i));
            }
        }
    }
    assert forall|label: Seq<char>| mapping_of(after).contains_key(label) implies mapping_of(
        after,
    )[label] == want[label] by {
        let i = choose|i: int| slot_has(after, label, i);
        lemma_slot_is_mapped(after, i);
        if i < slots.len() {
            assert(after[i] == slots[i]);
            lemma_slot_is_mapped(slots, i);
        }
    }
    assert(mapping_of(after) =~= want);
}

/// Taking a slot out removes its label from the mapping.
pub proof fn lemma_remove_removes<T>(slots: Seq<Slot<T>>, at: int)
    requires
        labels_distinct(slots),
        0 <= at < slots.len(),
    ensures
        labels_distinct(slots.remove(at)),
        mapping_of(slots.remove(at)) == mapping_of(slots).remove(slots[at].label@),
{
    let after = slots.remove(at);
    let gone = slots[at].label@;
    assert forall|i: int, j: int| 0 <= i < j < after.len() implies (#[trigger] after[i]).label@ != (
    #[trigger] after[j]).label@ by {
        let si = if i < at {
            i
        } else {
            i + 1
        };
        let sj = if j < at {
            j
        } else {
            j + 1
        };
        assert(after[i] == slots[si] && after[j] == slots[sj]);
    }
    let want = mapping_of(slots).remove(gone);
    assert forall|label: Seq<char>| mapping_of(after).contains_key(label) <==> want.contains_key(
        label,
    ) by {
        if mapping_of(after).contains_key(label) {
            let i = choose|i: int| slot_has(after, label, i);
            let si = if i < at {
                i
            } else {
                i + 1
            };
            assert(after[i] == slots[si]);
            assert(slot_has(slots, label, si));
            if si < at {
                assert(slots[si].label@ != slots[at].label@);
            } else {
                assert(slots[at].label@ != slots[si].label@);
            }
        }
        if want.contains_key(label) {
            let si = choose|i: int| slot_has(slots, label, i);
            assert(slot_has(slots, label, si));
            let i = if si < at {
                si
            } else {
                si - 1
            };
            assert(after[i] == slots[si]);
            assert(slot_has(after, label, i));
        }
    }
    assert forall|label: Seq<char>| mapping_of(after).contains_key(label) implies mapping_of(
        after,
    )[label] == want[label] by {
        let i = choose|i: int| slot_has(after, label, i);
        lemma_slot_is_mapped(after, i);
        let si = if i < at {
            i
        } else {
            i + 1
        };
        assert(after[i] == slots[si]);
        lemma_slot_is_mapped(slots, si);
    }
    assert(mapping_of(after) =~= want);
}

impl<T> Registry<T> {
    /// The registry holds at most one instance for each label.
    pub closed spec fn wf(&self) -> bool {
        labels_distinct(self.slots@)
    }

    /// The mapping from labels to instances.
    pub closed spec fn view(&self) -> Map<Seq<char>, T> {
        mapping_of(self.slots@)
    }

    /// A registry without instances.
    pub fn new() -> (res: Registry<T>)
        ensures
            res.wf(),
            res@ == Map::<Seq<char>, T>::empty(),
    {
        let res = Registry { slots: Vec::new() };
        proof {
            assert(mapping_of(res.slots@) =~= Map::<Seq<char>, T>::empty());
        }
        res
    }

    /// Where the label's slot is, if it has one.
    fn position(&self, label: &str) -> (res: Option<usize>)
        requires
            self.wf(),
        ensures
            match res {
                Some(i) => slot_has(self.slots@, label@, i as int),
                None => !self@.contains_key(label@),
            },
    {
        let wanted = String::from_str(label);
        let mut i: usize = 0;
        while i < self.slots.len()
            invariant
                i <= self.slots.len(),
                wanted@ == label@,
                forall|k: int| 0 <= k < i ==> !slot_has(self.slots@, label@, k),
            decreases self.slots.len() - i,
        {
            if self.slots[i].label == wanted {
                return Some(i);
            }
            i += 1;
        }
        None
    }

    /// Tells whether the label has an instance.
    pub fn contains(&self, label: &str) -> (res: bool)
        requires
            self.wf(),
        ensures
            res == self@.contains_key(label@),
    {
        match self.position(label) {
            Some(i) => {
                proof {
                    lemma_slot_is_mapped(self.slots@, i as int);
                }
                true
            },
            None => false,
        }
    }

    /// The number of instances.
    pub fn len(&self) -> (res: usize)
        requires
            self.wf(),
        ensures
            res == self@.len(),
            self@.dom().finite(),
    {
        proof {
            lemma_mapping_len(self.slots@);
        }
        self.slots.len()
    }

    /// The label's instance, if it has one.
    pub fn get(&self, label: &str) -> (res: Option<&T>)
        requires
            self.wf(),
        ensures
            match res {
                Some(instance) => self@.contains_key(label@) && *instance == self@[label@],
                None => !self@.contains_key(label@),
            },
    {
        match self.position(label) {
            Some(i) => {
                proof {
                    lemma_slot_is_mapped(self.slots@, i as int);
                }
                Some(&self.slots[i].instance)
            },
            None => None,
        }
    }

    /// Registers the instance under the label, unless the label has one
    /// already: then nothing changes and the instance comes back.
    pub fn insert(&mut self, label: String, instance: T) -> (res: Option<T>)
        requires
            old(self).wf(),
        ensures
            final(self).wf(),
            match res {
                None => !old(self)@.contains_key(label@) && final(self)@ == old(self)@.insert(
                    label@,
                    instance,
                ),
                Some(back) => old(self)@.contains_key(label@) && final(self)@ == old(self)@
                    && back == instance,
            },
    {
        match self.position(label.as_str()) {
            Some(i) => {
                proof {
                    lemma_slot_is_mapped(self.slots@, i as int);
                }
                Some(instance)
            },
            None => {
                let slot = Slot { label, instance };
                proof {
                    lemma_push_inserts(self.slots@, slot);
                }
                self.slots.push(slot);
                None
            },
        }
    }

    /// Detaches the label's instance, if it has one, and hands it over.
    pub fn remove(&mut self, label: &str) -> (res: Option<T>)
        requires
            old(self).wf(),
        ensures
            final(self).wf(),
            match res {
                Some(instance) => old(self)@.contains_key(label@) && instance == old(self)@[label@],
                None => !old(self)@.contains_key(label@),
            },
            final(self)@ == old(self)@.remove(label@),
    {
        match self.position(label) {
            Some(i) => {
                proof {
                    lemma_slot_is_mapped(self.slots@, i as int);
                    lemma_remove_removes(self.slots@, i as int);
                }
                let slot = self.slots.remove(i);
                Some(slot.instance)
            },
            None => {
                proof {
                    assert(self@.remove(label@) =~= self@);
                }
                None
            },
        }
    }
}

/// The mapping after an attempt to register under `label` what `built`
/// stands for: unchanged where the label is taken or building failed.
pub open spec fn after_insert_if_absent<T, E>(
    m: Map<Seq<char>, T>,
    label: Seq<char>,
    built: Result<T, E>,
) -> Map<Seq<char>, T> {
    if m.contains_key(label) {
        m
    } else {
        match built {
            Ok(instance) => m.insert(label, instance),
            Err(_) => m,
        }
    }
}

/// What such an attempt reports.
pub open spec fn outcome_of<T, E>(
    m: Map<Seq<char>, T>,
    label: Seq<char>,
    built: Result<T, E>,
) -> InsertOutcome<E> {
    if m.contains_key(label) {
        InsertOutcome::AlreadyPresent
    } else {
        match built {
            Ok(_) => InsertOutcome::Inserted,
            Err(e) => InsertOutcome::Failed(e),
        }
    }
}

impl<T> Registry<T> {
    /// Registers under the label what `build` makes, unless the label has an
    /// instance already: then `build` is not called. Where `build` fails,
    /// nothing is registered and its failure is handed on.
    pub fn insert_if_absent<E, F: FnOnce() -> Result<T, E>>(
        &mut self,
        label: String,
        build: F,
    ) -> (res: InsertOutcome<E>)
        requires
            old(self).wf(),
            build.requires(()),
        ensures
            final(self).wf(),
            old(self)@.contains_key(label@) ==> res is AlreadyPresent && final(self)@ == old(self)@,
            !old(self)@.contains_key(label@) ==> exists|built: Result<T, E>|
                #![trigger build.ensures((), built)]
                build.ensures((), built) && res == outcome_of(old(self)@, label@, built)
                    && final(self)@ == after_insert_if_absent(old(self)@, label@, built),
    {
        if self.contains(label.as_str()) {
            return InsertOutcome::AlreadyPresent;
        }
        let built = build();
        match built {
            Ok(instance) => {
                let ghost witness = Ok::<T, E>(instance);
                let back = self.insert(label, instance);
                proof {
                    assert(build.ensures((), witness));
                    assert(final(self)@ == after_insert_if_absent(old(self)@, label@, witness));
                }
                InsertOutcome::Inserted
            },
            Err(e) => {
                proof {
                    assert(build.ensures((), Err::<T, E>(e)));
                }
                InsertOutcome::Failed(e)
            },
        }
    }
}

/// Of two attempts to register under one label, at most one builds: once the
/// first has registered its instance, the second finds the label taken and
/// leaves the registry as it is, whatever it would have built.
pub proof fn second_insert_builds_nothing<T, E>(
    m: Map<Seq<char>, T>,
    label: Seq<char>,
    first: Result<T, E>,
    second: Result<T, E>,
)
    requires
        outcome_of(m, label, first) is Inserted,
    ensures
        outcome_of(after_insert_if_absent(m, label, first), label, second) is AlreadyPresent,
        after_insert_if_absent(after_insert_if_absent(m, label, first), label, second)
            == after_insert_if_absent(m, label, first),
{
}

/// Removing a label twice leaves what removing it once leaves, and the
/// second removal finds nothing.
pub proof fn second_remove_finds_nothing<T>(m: Map<Seq<char>, T>, label: Seq<char>)
    ensures
        !m.remove(label).contains_key(label),
        m.remove(label).remove(label) == m.remove(label),
{
    assert(m.remove(label).remove(label) =~= m.remove(label));
}

/// With distinct labels the mapping has as many entries as there are slots.
pub proof fn lemma_mapping_len<T>(slots: Seq<Slot<T>>)
    requires
        labels_distinct(slots),
    ensures
        mapping_of(slots).dom().finite(),
        mapping_of(slots).len() == slots.len(),
    decreases slots.len(),
{
    if slots.len() == 0 {
        assert(mapping_of(slots) =~= Map::<Seq<char>, T>::empty());
    } else {
        let last = (slots.len() - 1) as int;
        lemma_remove_removes(slots, last);
        let before = slots.remove(last);
        lemma_mapping_len(before);
        lemma_slot_is_mapped(slots, last);
        let label = slots[last].label@;
        assert(mapping_of(slots) =~= mapping_of(before).insert(label, slots[last].instance));
        assert(!mapping_of(before).contains_key(label));
    }
}

} // verus!
