use crate::capability::{lemma_order_has_no_duplicates, lemma_order_is_complete, Capability};
use crate::logging::{Level, LogRecord, LogRecordView};
use crate::registry::{
    failure_causes, installed, lemma_installed_domain, lemma_installed_last_wins,
    lemma_no_failure, lemma_single_failure, Creation, RegistrationTable,
};
use vstd::prelude::*;

verus! {

/// The plugin that gives scripts their input, logging and messaging capabilities.
/// It carries no state: loading and unloading change nothing in it.
#[derive(Clone, Copy, Debug, PartialEq, Eq, Structural)]
pub struct PluginLuaCygnixy;

/// What a registration call hands back to the host: the table to install, and
/// one record for the log per capability that could not be created.
#[derive(Debug)]
pub struct Registration<F> {
    pub functions: RegistrationTable<F>,
    pub diagnostics: Vec<LogRecord>,
}

/// The record that reports a refused creation: at error severity, outside any
/// caller's scope, naming the cause.
pub open spec fn failure_record(cause: Seq<char>) -> LogRecordView {
    LogRecordView {
        level: Level::Error,
        caller: None,
        message: "Failed to register Lua functions: "@ + cause,
    }
}

/// The records that report the refused creations among `created`, in order.
pub open spec fn failure_records<F>(created: Seq<Creation<F>>) -> Seq<LogRecordView> {
    failure_causes(created).map_values(|cause: Seq<char>| failure_record(cause))
}

/// What the records of `records` say, in order.
pub open spec fn record_views(records: Seq<LogRecord>) -> Seq<LogRecordView> {
    Seq::new(records.len(), |i: int| records[i]@)
}

/// The record that the plugin writes at a turn of its life.
pub open spec fn lifecycle_record(message: Seq<char>) -> LogRecordView {
    LogRecordView { level: Level::Trace, caller: None, message }
}

impl Default for PluginLuaCygnixy {
    fn default() -> (plugin: PluginLuaCygnixy)
        ensures
            plugin == PluginLuaCygnixy,
    {
        PluginLuaCygnixy
    }
}

impl PluginLuaCygnixy {
    /// The plugin, ready to be loaded.
    pub fn new() -> (plugin: PluginLuaCygnixy)
        ensures
            plugin == PluginLuaCygnixy,
    {
        PluginLuaCygnixy
    }

    /// The name under which the host keeps the plugin.
    pub fn name(&self) -> (name: &'static str)
        ensures
            name@ == "cygnixy"@,
    {
        "cygnixy"
    }

    /// Called when the host loads the plugin. Always succeeds, and hands back
    /// the trace record to write.
    pub fn on_load(&mut self) -> (r: Result<LogRecord, String>)
        ensures
            r is Ok,
            r->Ok_0@ == lifecycle_record("PluginLuaCygnixy loaded!"@),
            *final(self) == *old(self),
    {
        Ok(
            LogRecord {
                level: Level::Trace,
                caller: None,
                message: "PluginLuaCygnixy loaded!".to_owned(),
            },
        )
    }

    /// Called when the host unloads the plugin. Always succeeds, and hands back
    /// the trace record to write.
    pub fn on_unload(&mut self) -> (r: Result<LogRecord, String>)
        ensures
            r is Ok,
            r->Ok_0@ == lifecycle_record("PluginLuaCygnixy unloaded!"@),
            *final(self) == *old(self),
    {
        Ok(
            LogRecord {
                level: Level::Trace,
                caller: None,
                message: "PluginLuaCygnixy unloaded!".to_owned(),
            },
        )
    }

    /// Attempts the creation of every capability, once, in registration
    /// order, by a call of `create`. A refusal does not end the round: the
    /// capabilities after it are attempted all the same.
    pub fn create_functions<F, C>(&self, create: C) -> (created: Vec<Creation<F>>) where
        C: Fn(Capability) -> Result<F, String>,

        requires
            forall|capability: Capability| call_requires(create, (capability,)),
        ensures
            follows_registration_order(created@),
            forall|i: int|
                0 <= i < created@.len() ==> call_ensures(
                    create,
                    ((#[trigger] created@[i]).capability,),
                    created@[i].outcome,
                ),
    {
        let order = Capability::all();
        let mut created: Vec<Creation<F>> = Vec::new();
        let mut i: usize = 0;
        while i < order.len()
            invariant
                order@ == Capability::registration_order(),
                forall|capability: Capability| call_requires(create, (capability,)),
                i <= order@.len(),
                created@.len() == i,
                forall|k: int|
                    0 <= k < i ==> (#[trigger] created@[k]).capability == order@[k] && call_ensures(
                        create,
                        (created@[k].capability,),
                        created@[k].outcome,
                    ),
            decreases order@.len() - i,
        {
            let capability = order[i];
            let outcome = create(capability);
            created.push(Creation { capability, outcome });
            i += 1;
        }
        created
    }

    /// Builds the table of one interpreter instance from the creations that
    /// the host attempted. A refused creation costs its own entry and nothing
    /// else: it is reported in the diagnostics, and the rest is registered.
    pub fn get_lua_functions<F>(&self, created: Vec<Creation<F>>) -> (registration: Registration<F>)
        ensures
            registration.functions@ == installed(Map::empty(), created@),
            record_views(registration.diagnostics@) == failure_records(created@),
            registration.diagnostics@.len() == failure_causes(created@).len(),
    {
        let ghost causes = failure_causes(created@);
        let mut functions = RegistrationTable::new();
        let failures = self.register_functions(created, &mut functions);
        let mut diagnostics: Vec<LogRecord> = Vec::new();
        for cause in it: failures.into_iter()
            invariant
                it.seq().len() == causes.len(),
                forall|i: int| 0 <= i < causes.len() ==> (#[trigger] it.seq()[i])@ == causes[i],
                diagnostics@.len() == it.index(),
                forall|i: int|
                    0 <= i < it.index() ==> (#[trigger] diagnostics@[i])@ == failure_record(
                        causes[i],
                    ),
        {
            let message = "Failed to register Lua functions: ".to_owned().concat(cause.as_str());
            diagnostics.push(LogRecord { level: Level::Error, caller: None, message });
        }
        assert(record_views(diagnostics@) =~= failure_records(created@));
        Registration { functions, diagnostics }
    }

    /// Puts the callables of `created` into `functions`, each under its
    /// capability, and goes on past every refused creation. Returns the
    /// causes of the refusals, in order.
    pub fn register_functions<F>(
        &self,
        created: Vec<Creation<F>>,
        functions: &mut RegistrationTable<F>,
    ) -> (failures: Vec<String>)
        ensures
            final(functions)@ == installed(old(functions)@, created@),
            failures.deep_view() == failure_causes(created@),
    {
        let ghost all = created@;
        let mut failures: Vec<String> = Vec::new();
        assert(failures.deep_view() =~= failure_causes(all.subrange(0, 0)));
        for creation in it: created.into_iter()
            invariant
                it.seq() == all,
                functions@ == installed(old(functions)@, all.subrange(0, it.index())),
                failures.deep_view() == failure_causes(all.subrange(0, it.index())),
        {
            let ghost done = all.subrange(0, it.index());
            let ghost next = all.subrange(0, it.index() + 1);
            assert(next.drop_last() =~= done);
            assert(next.last() == creation);
            let ghost before = failures.deep_view();
            match creation.outcome {
                Ok(callable) => {
                    functions.insert(creation.capability, callable);
                },
                Err(cause) => {
                    failures.push(cause);
                    assert(failures.deep_view() =~= before.push(cause@));
                },
            }
        }
        assert(all.subrange(0, all.len() as int) =~= all);
        failures
    }
}

/// Whether `created` holds one creation for every capability, in
/// registration order.
pub open spec fn follows_registration_order<F>(created: Seq<Creation<F>>) -> bool {
    &&& created.len() == Capability::registration_order().len()
    &&& forall|i: int|
        0 <= i < created.len() ==> (#[trigger] created[i]).capability
            == Capability::registration_order()[i]
}

/// One refused creation does not keep the rest from being registered: where
/// the host attempts every capability in registration order and exactly one
/// creation is refused, the table holds every other capability with the
/// callable created for it, it lacks the refused one, and the diagnostics are
/// one record, at error severity, that names the cause.
pub proof fn lemma_one_refusal_spares_the_rest<F>(created: Seq<Creation<F>>, refused: int)
    requires
        follows_registration_order(created),
        0 <= refused < created.len(),
        forall|i: int|
            0 <= i < created.len() ==> ((#[trigger] created[i]).outcome is Err <==> i == refused),
    ensures
        forall|c: Capability|
            installed(Map::<Capability, F>::empty(), created).contains_key(c) <==> c
                != created[refused].capability,
        forall|i: int|
            0 <= i < created.len() && i != refused ==> installed(
                Map::<Capability, F>::empty(),
                created,
            )[(#[trigger] created[i]).capability] == created[i].outcome->Ok_0,
        failure_records(created) == seq![failure_record(created[refused].outcome->Err_0@)],
        failure_record(created[refused].outcome->Err_0@).level == Level::Error,
{
    let base = Map::<Capability, F>::empty();
    lemma_order_has_no_duplicates();
    assert forall|c: Capability|
        installed(base, created).contains_key(c) <==> c != created[refused].capability by {
        lemma_installed_domain(base, created, c);
        lemma_order_is_complete(c);
        if c != created[refused].capability {
            assert(created[c.spec_index()].capability == c);
        }
    }
    assert forall|i: int| 0 <= i < created.len() && i != refused implies installed(
        base,
        created,
    )[(#[trigger] created[i]).capability] == created[i].outcome->Ok_0 by {
        lemma_installed_last_wins(base, created, i);
    }
    lemma_single_failure(created, refused);
    assert(failure_records(created) =~= seq![failure_record(created[refused].outcome->Err_0@)]);
}

/// Where the host attempts every capability in registration order and every
/// creation succeeds, the table holds every capability and nothing is reported.
pub proof fn lemma_full_registration<F>(created: Seq<Creation<F>>)
    requires
        follows_registration_order(created),
        forall|i: int| 0 <= i < created.len() ==> (#[trigger] created[i]).outcome is Ok,
    ensures
        forall|c: Capability| installed(Map::<Capability, F>::empty(), created).contains_key(c),
        forall|i: int|
            0 <= i < created.len() ==> installed(
                Map::<Capability, F>::empty(),
                created,
            )[(#[trigger] created[i]).capability] == created[i].outcome->Ok_0,
        failure_records(created) == Seq::<LogRecordView>::empty(),
{
    let base = Map::<Capability, F>::empty();
    lemma_order_has_no_duplicates();
    assert forall|c: Capability| installed(base, created).contains_key(c) by {
        lemma_installed_domain(base, created, c);
        lemma_order_is_complete(c);
        assert(created[c.spec_index()].capability == c);
    }
    assert forall|i: int| 0 <= i < created.len() implies installed(
        base,
        created,
    )[(#[trigger] created[i]).capability] == created[i].outcome->Ok_0 by {
        lemma_installed_last_wins(base, created, i);
    }
    lemma_no_failure(created);
    assert(failure_records(created) =~= Seq::<LogRecordView>::empty());
}

} // verus!
