//! Other names for models.
use crate::ids::Uuid;
use crate::text::copy_list;
use crate::time::Timestamp;
use vstd::prelude::*;

verus! {

/// Another name for a model.
#[derive(Debug, Clone)]
pub struct ModelAlias {
    pub id: Uuid,
    pub alias_name: String,
    pub canonical_model_id: Uuid,
    pub is_active: bool,
    pub created_at: Timestamp,
    pub updated_at: Timestamp,
}

/// What to do to the names of a model.
#[derive(Debug, Clone)]
pub enum AliasStep {
    /// Remove all names of the model.
    RemoveAll,
    /// Point each of these names to the model, whatever it pointed to.
    Assign(Vec<String>),
    /// Remove the names of the model that are not among these.
    RemoveOthers(Vec<String>),
}

/// The names, and the model that each points to.
pub type AliasTable = Map<Seq<char>, Uuid>;

/// The names after a step.
pub open spec fn after_step(table: AliasTable, model: Uuid, step: AliasStep) -> AliasTable {
    match step {
        AliasStep::RemoveAll => table.restrict(
            Set::new(|name: Seq<char>| table.contains_key(name) && table[name] != model),
        ),
        AliasStep::Assign(names) => Map::new(
            |name: Seq<char>|
                table.contains_key(name) || crate::text::list_view(names@).contains(name),
            |name: Seq<char>|
                if crate::text::list_view(names@).contains(name) {
                    model
                } else {
                    table[name]
                },
        ),
        AliasStep::RemoveOthers(names) => table.restrict(
            Set::new(
                |name: Seq<char>|
                    table.contains_key(name) && (table[name] != model || crate::text::list_view(
                        names@,
                    ).contains(name)),
            ),
        ),
    }
}

/// The names after steps.
pub open spec fn after_steps(table: AliasTable, model: Uuid, steps: Seq<AliasStep>) -> AliasTable
    decreases steps.len(),
{
    if steps.len() == 0 {
        table
    } else {
        after_step(after_steps(table, model, steps.drop_last()), model, steps.last())
    }
}

/// The names of a model once they are replaced: those that are asked for point
/// to it and no others do, and other names stay as they are.
pub open spec fn replaced(table: AliasTable, model: Uuid, names: Seq<Seq<char>>) -> AliasTable {
    Map::new(
        |name: Seq<char>|
            names.contains(name) || (table.contains_key(name) && table[name] != model),
        |name: Seq<char>|
            if names.contains(name) {
                model
            } else {
                table[name]
            },
    )
}

/// How to replace the names of a model: new names first, so that a name which
/// stays is there all the time, and names that are no longer wanted after that.
pub fn upsert_aliases_for_model(alias_names: &Vec<String>) -> (r: Vec<AliasStep>)
    ensures
        alias_names@.len() == 0 ==> r@.len() == 1 && r@[0] is RemoveAll,
        alias_names@.len() > 0 ==> {
            &&& r@.len() == 2
            &&& r@[0] matches AliasStep::Assign(names) && crate::text::list_view(names@)
                == crate::text::list_view(alias_names@)
            &&& r@[1] matches AliasStep::RemoveOthers(names) && crate::text::list_view(names@)
                == crate::text::list_view(alias_names@)
        },
        forall|table: AliasTable, model: Uuid|
            #![trigger after_steps(table, model, r@)]
            after_steps(table, model, r@) == replaced(
                table,
                model,
                crate::text::list_view(alias_names@),
            ),
{
    let mut steps: Vec<AliasStep> = Vec::new();
    if alias_names.len() == 0 {
        steps.push(AliasStep::RemoveAll);
    } else {
        steps.push(AliasStep::Assign(copy_list(alias_names)));
        steps.push(AliasStep::RemoveOthers(copy_list(alias_names)));
    }
    proof {
        let names = crate::text::list_view(alias_names@);
        assert forall|table: AliasTable, model: Uuid|
            #![trigger after_steps(table, model, steps@)]
            after_steps(table, model, steps@) == replaced(table, model, names) by {
            lemma_steps_replace(table, model, steps@, names);
        }
    }
    steps
}

proof fn lemma_steps_replace(
    table: AliasTable,
    model: Uuid,
    steps: Seq<AliasStep>,
    names: Seq<Seq<char>>,
)
    requires
        names.len() == 0 ==> steps.len() == 1 && steps[0] is RemoveAll,
        names.len() > 0 ==> {
            &&& steps.len() == 2
            &&& steps[0] matches AliasStep::Assign(list) && crate::text::list_view(list@) == names
            &&& steps[1] matches AliasStep::RemoveOthers(list) && crate::text::list_view(list@)
                == names
        },
    ensures
        after_steps(table, model, steps) == replaced(table, model, names),
{
    reveal_with_fuel(after_steps, 3);
    assert(after_steps(table, model, steps) =~= replaced(table, model, names));
}

/// While names are replaced, a name that points to the model before and after
/// points to it all the time.
pub proof fn law_kept_names_never_vanish(
    table: AliasTable,
    model: Uuid,
    names: Vec<String>,
    name: Seq<char>,
)
    requires
        table.contains_key(name),
        table[name] == model,
        replaced(table, model, crate::text::list_view(names@)).contains_key(name),
    ensures
        after_step(table, model, AliasStep::Assign(names)).contains_key(name),
        after_step(table, model, AliasStep::Assign(names))[name] == model,
{
}

/// Once the names of a model are replaced, each name that was asked for points
/// to it, a name that pointed to it and was not asked for is gone, and every
/// other name points where it did.
pub proof fn law_replaced_names_are_those_asked_for(
    table: AliasTable,
    model: Uuid,
    names: Seq<Seq<char>>,
    name: Seq<char>,
)
    ensures
        names.contains(name) ==> replaced(table, model, names).contains_key(name) && replaced(
            table,
            model,
            names,
        )[name] == model,
        !names.contains(name) && table.contains_key(name) && table[name] == model ==> !replaced(
            table,
            model,
            names,
        ).contains_key(name),
        !names.contains(name) && table.contains_key(name) && table[name] != model ==> replaced(
            table,
            model,
            names,
        ).contains_key(name) && replaced(table, model, names)[name] == table[name],
        !names.contains(name) && !table.contains_key(name) ==> !replaced(
            table,
            model,
            names,
        ).contains_key(name),
{
}

/// What each step does to a name.
pub proof fn law_steps_move_names(
    table: AliasTable,
    model: Uuid,
    names: Vec<String>,
    name: Seq<char>,
)
    ensures
        ({
            let listed = crate::text::list_view(names@).contains(name);
            let own = table.contains_key(name) && table[name] == model;
            let removed = after_step(table, model, AliasStep::RemoveAll);
            let assigned = after_step(table, model, AliasStep::Assign(names));
            let cleared = after_step(table, model, AliasStep::RemoveOthers(names));
            &&& removed.contains_key(name) <==> table.contains_key(name) && !own
            &&& removed.contains_key(name) ==> removed[name] == table[name]
            &&& assigned.contains_key(name) <==> table.contains_key(name) || listed
            &&& listed ==> assigned[name] == model
            &&& !listed && table.contains_key(name) ==> assigned[name] == table[name]
            &&& cleared.contains_key(name) <==> table.contains_key(name) && (!own || listed)
            &&& cleared.contains_key(name) ==> cleared[name] == table[name]
        }),
{
}

} // verus!
