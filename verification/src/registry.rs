use crate::capability::{lemma_names_are_distinct, Capability};
use vstd::prelude::*;

verus! {

/// One entry of a registration table as the host installs it: the name under
/// which scripts call the capability, and the callable that serves it.
#[derive(Debug)]
pub struct Entry<F> {
    pub capability: Capability,
    pub name: String,
    pub callable: F,
}

/// What became of the attempt to create the native callable of one
/// capability: the callable, or the cause for which the interpreter refused it.
#[derive(Debug)]
pub struct Creation<F> {
    pub capability: Capability,
    pub outcome: Result<F, String>,
}

/// The table that registration leaves: `base`, with each callable of
/// `created` put under its capability, in order. Refused creations leave no mark.
pub open spec fn installed<F>(base: Map<Capability, F>, created: Seq<Creation<F>>) -> Map<
    Capability,
    F,
>
    decreases created.len(),
{
    if created.len() == 0 {
        base
    } else {
        let earlier = installed(base, created.drop_last());
        match created.last().outcome {
            Ok(callable) => earlier.insert(created.last().capability, callable),
            Err(_) => earlier,
        }
    }
}

/// The causes of the refused creations among `created`, in order.
pub open spec fn failure_causes<F>(created: Seq<Creation<F>>) -> Seq<Seq<char>>
    decreases created.len(),
{
    if created.len() == 0 {
        Seq::empty()
    } else {
        let earlier = failure_causes(created.drop_last());
        match created.last().outcome {
            Ok(_) => earlier,
            Err(cause) => earlier.push(cause@),
        }
    }
}

/// A capability stands in the registered table exactly if it stood in `base`
/// or one of its creations succeeded.
pub proof fn lemma_installed_domain<F>(
    base: Map<Capability, F>,
    created: Seq<Creation<F>>,
    capability: Capability,
)
    ensures
        installed(base, created).contains_key(capability) <==> base.contains_key(capability) || (
        exists|i: int|
            0 <= i < created.len() && (#[trigger] created[i]).capability == capability
                && created[i].outcome is Ok),
    decreases created.len(),
{
    if created.len() > 0 {
        let earlier = created.drop_last();
        lemma_installed_domain(base, earlier, capability);
        if installed(base, created).contains_key(capability) && !base.contains_key(capability) {
            if installed(base, earlier).contains_key(capability) {
                let i = choose|i: int|
                    0 <= i < earlier.len() && (#[trigger] earlier[i]).capability == capability
                        && earlier[i].outcome is Ok;
                assert(created[i] == earlier[i]);
            } else {
                assert(created[created.len() - 1].capability == capability);
            }
        }
        if exists|i: int|
            0 <= i < created.len() && (#[trigger] created[i]).capability == capability
                && created[i].outcome is Ok {
            let i = choose|i: int|
                0 <= i < created.len() && (#[trigger] created[i]).capability == capability
                    && created[i].outcome is Ok;
            if i < earlier.len() {
                assert(earlier[i] == created[i]);
            }
        }
    }
}

/// Under a capability the registered table holds the callable of its last
/// successful creation: a later one replaces an earlier one.
pub proof fn lemma_installed_last_wins<F>(
    base: Map<Capability, F>,
    created: Seq<Creation<F>>,
    i: int,
)
    requires
        0 <= i < created.len(),
        created[i].outcome is Ok,
        forall|j: int|
            i < j < created.len() && (#[trigger] created[j]).capability == created[i].capability
                ==> created[j].outcome is Err,
    ensures
        installed(base, created).contains_key(created[i].capability),
        installed(base, created)[created[i].capability] == created[i].outcome->Ok_0,
    decreases created.len(),
{
    let earlier = created.drop_last();
    if i < created.len() - 1 {
        assert(earlier[i] == created[i]);
        assert forall|j: int|
            i < j < earlier.len() && (#[trigger] earlier[j]).capability
                == earlier[i].capability implies earlier[j].outcome is Err by {
            assert(earlier[j] == created[j]);
        }
        lemma_installed_last_wins(base, earlier, i);
        assert(created.last() == created[created.len() - 1]);
    }
}

/// Under a capability of which no creation succeeded the registered table
/// holds what `base` held.
pub proof fn lemma_installed_keeps_base<F>(
    base: Map<Capability, F>,
    created: Seq<Creation<F>>,
    capability: Capability,
)
    requires
        forall|j: int|
            0 <= j < created.len() && (#[trigger] created[j]).capability == capability
                ==> created[j].outcome is Err,
    ensures
        installed(base, created).contains_key(capability) == base.contains_key(capability),
        installed(base, created)[capability] == base[capability],
    decreases created.len(),
{
    if created.len() > 0 {
        let earlier = created.drop_last();
        assert forall|j: int|
            0 <= j < earlier.len() && (#[trigger] earlier[j]).capability
                == capability implies earlier[j].outcome is Err by {
            assert(earlier[j] == created[j]);
        }
        lemma_installed_keeps_base(base, earlier, capability);
        assert(created.last() == created[created.len() - 1]);
    }
}

/// Where every creation succeeds, nothing fails.
pub proof fn lemma_no_failure<F>(created: Seq<Creation<F>>)
    requires
        forall|j: int| 0 <= j < created.len() ==> (#[trigger] created[j]).outcome is Ok,
    ensures
        failure_causes(created) == Seq::<Seq<char>>::empty(),
    decreases created.len(),
{
    if created.len() > 0 {
        let earlier = created.drop_last();
        assert forall|j: int| 0 <= j < earlier.len() implies (#[trigger] earlier[j]).outcome is Ok by {
            assert(earlier[j] == created[j]);
        }
        lemma_no_failure(earlier);
        assert(created.last() == created[created.len() - 1]);
    }
}

/// Where exactly one creation is refused, its cause is the one failure.
pub proof fn lemma_single_failure<F>(created: Seq<Creation<F>>, k: int)
    requires
        0 <= k < created.len(),
        forall|j: int| 0 <= j < created.len() ==> ((#[trigger] created[j]).outcome is Err <==> j == k),
    ensures
        failure_causes(created) == seq![created[k].outcome->Err_0@],
    decreases created.len(),
{
    let earlier = created.drop_last();
    assert(created.last() == created[created.len() - 1]);
    if k == created.len() - 1 {
        assert forall|j: int| 0 <= j < earlier.len() implies (#[trigger] earlier[j]).outcome is Ok by {
            assert(earlier[j] == created[j]);
        }
        lemma_no_failure(earlier);
        assert(failure_causes(created) =~= seq![created[k].outcome->Err_0@]);
    } else {
        assert forall|j: int| 0 <= j < earlier.len() implies ((#[trigger] earlier[j]).outcome is Err <==> j
            == k) by {
            assert(earlier[j] == created[j]);
        }
        lemma_single_failure(earlier, k);
        assert(earlier[k] == created[k]);
    }
}

/// The callables of one interpreter instance, by capability. `F` is the
/// interpreter's type of native callable; the table only stores it.
#[derive(Debug)]
pub struct RegistrationTable<F> {
    slots: Vec<Option<F>>,
}

impl<F> View for RegistrationTable<F> {
    type V = Map<Capability, F>;

    closed spec fn view(&self) -> Map<Capability, F> {
        Map::new(
            |c: Capability| c.spec_index() < self.slots@.len() && self.slots@[c.spec_index()] is Some,
            |c: Capability| self.slots@[c.spec_index()]->0,
        )
    }
}

impl<F> RegistrationTable<F> {
    /// The table that holds no callable.
    pub fn new() -> (table: RegistrationTable<F>)
        ensures
            table@ == Map::<Capability, F>::empty(),
    {
        let table = RegistrationTable { slots: Vec::new() };
        assert(table@ =~= Map::<Capability, F>::empty());
        table
    }

    /// Puts `callable` under `capability`. A callable that stood there before is dropped.
    pub fn insert(&mut self, capability: Capability, callable: F)
        ensures
            final(self)@ == old(self)@.insert(capability, callable),
    {
        let i = capability.index();
        while self.slots.len() <= i
            invariant
                old(self).slots@.len() <= self.slots@.len(),
                self.slots@.subrange(0, old(self).slots@.len() as int) == old(self).slots@,
                forall|k: int| old(self).slots@.len() <= k < self.slots@.len() ==> self.slots@[k] is None,
            decreases i + 1 - self.slots@.len(),
        {
            self.slots.push(None);
        }
        assert(self@ =~= old(self)@);
        self.slots.set(i, Some(callable));
        assert(self@ =~= old(self)@.insert(capability, callable));
    }

    /// Whether a callable stands under `capability`.
    pub fn contains(&self, capability: Capability) -> (r: bool)
        ensures
            r == self@.contains_key(capability),
    {
        let i = capability.index();
        i < self.slots.len() && self.slots[i].is_some()
    }

    /// The callable that stands under `capability`, if there is one.
    pub fn get(&self, capability: Capability) -> (r: Option<&F>)
        ensures
            match r {
                Some(callable) => self@.contains_key(capability) && *callable == self@[capability],
                None => !self@.contains_key(capability),
            },
    {
        let i = capability.index();
        if i < self.slots.len() {
            self.slots[i].as_ref()
        } else {
            None
        }
    }

    /// The entries of the table, each under its capability's name, in
    /// registration order. No name occurs twice.
    pub fn into_entries(self) -> (entries: Vec<Entry<F>>)
        ensures
            forall|k: int|
                0 <= k < entries@.len() ==> {
                    &&& self@.contains_key(#[trigger] entries@[k].capability)
                    &&& entries@[k].callable == self@[entries@[k].capability]
                    &&& entries@[k].name@ == entries@[k].capability.spec_name()
                },
            forall|c: Capability|
                self@.contains_key(c) ==> exists|k: int|
                    0 <= k < entries@.len() && #[trigger] entries@[k].capability == c,
            forall|j: int, k: int|
                0 <= j < k < entries@.len() ==> entries@[j].capability.spec_index()
                    < entries@[k].capability.spec_index(),
            forall|j: int, k: int|
                0 <= j < k < entries@.len() ==> entries@[j].name@ != entries@[k].name@,
    {
        let ghost table = self@;
        let ghost slots = self.slots@;
        let order = Capability::all();
        let mut entries: Vec<Entry<F>> = Vec::new();
        let mut i: usize = 0;
        assert(slots.len() == self.slots.len());
        for slot in it: self.slots.into_iter()
            invariant
                it.seq() == slots,
                slots.len() <= usize::MAX,
                i == it.index(),
                order@ == Capability::registration_order(),
                table == Map::new(
                    |c: Capability| c.spec_index() < slots.len() && slots[c.spec_index()] is Some,
                    |c: Capability| slots[c.spec_index()]->0,
                ),
                forall|k: int|
                    0 <= k < entries@.len() ==> {
                        &&& table.contains_key(#[trigger] entries@[k].capability)
                        &&& entries@[k].callable == table[entries@[k].capability]
                        &&& entries@[k].name@ == entries@[k].capability.spec_name()
                        &&& entries@[k].capability.spec_index() < i
                    },
                forall|c: Capability|
                    table.contains_key(c) && c.spec_index() < i ==> exists|k: int|
                        0 <= k < entries@.len() && #[trigger] entries@[k].capability == c,
                forall|j: int, k: int|
                    0 <= j < k < entries@.len() ==> entries@[j].capability.spec_index()
                        < entries@[k].capability.spec_index(),
        {
            if i < order.len() {
                if let Some(callable) = slot {
                    let capability = order[i];
                    let ghost before = entries@;
                    entries.push(Entry { capability, name: capability.name().to_owned(), callable });
                    assert(entries@[before.len() as int].capability == capability);
                    assert forall|c: Capability|
                        table.contains_key(c) && c.spec_index() < i + 1 implies exists|k: int|
                        0 <= k < entries@.len() && #[trigger] entries@[k].capability == c by {
                        if c.spec_index() < i {
                            let k = choose|k: int|
                                0 <= k < before.len() && #[trigger] before[k].capability == c;
                            assert(entries@[k].capability == c);
                        } else {
                            assert(c == capability);
                        }
                    }
                }
            }
            i += 1;
        }
        assert forall|j: int, k: int| 0 <= j < k < entries@.len() implies entries@[j].name@
            != entries@[k].name@ by {
            assert(table.contains_key(entries@[j].capability));
            assert(table.contains_key(entries@[k].capability));
            lemma_names_are_distinct(entries@[j].capability, entries@[k].capability);
        }
        entries
    }
}

} // verus!
