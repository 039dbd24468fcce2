//! What holds of everything that is generated, whatever the type: which operations a field
//! gets and how they are named, when generation fails and what the failure names, and that
//! the same input always gives the same output.

use crate::behavior::{
    spec_failure_tail, spec_not_found, spec_rejection, spec_request, spec_resume, ArgumentView,
    ElementHandle, OutcomeView, ProgressView, ReplyView, RequestView, Stage, ValueView,
};
use crate::catalog::{
    lemma_action_named, lemma_method_names_injective, lemma_names_distinct, spec_action_named,
    Acquisition, Action,
};
use crate::error::{
    holds_text, lemma_holds_middle, lemma_message_names_its_subject, GenerationErrorView,
};
use crate::expand::{
    declared_field_operations, declared_operations, spec_impl_thirtyfour_actions,
};
use crate::extract::{requested_names, requests_actions, spec_extract, spec_extract_field};
use crate::model::{
    distinct_names, AttributeView, FieldDeclarationView, FieldDescriptorView,
    GeneratedMethodSetView, GeneratedOperationView, PageObjectTypeView, TypeDeclarationView,
};
use crate::render::spec_render;
use crate::syntax::{
    is_blank, is_parenthesized, list_items, segments, spec_parse, strip_keyword, trim, trim_end,
    trim_start,
};
use crate::synthesize::{
    distinct, field_operations, fields_operations, operation_for, operations_for, plan, resolve,
    spec_synthesize,
};
use vstd::prelude::*;

verus! {

/// `distinct` keeps every item once: what it yields has no repetitions, holds the same
/// items, and is as long as there are different items.
pub proof fn lemma_distinct<A>(s: Seq<A>)
    ensures
        distinct(s).no_duplicates(),
        forall|x: A| distinct(s).contains(x) <==> s.contains(x),
        distinct(s).len() == s.to_set().len(),
    decreases s.len(),
{
    if s.len() == 0 {
        assert(s.to_set() =~= Set::<A>::empty());
    } else {
        let front = s.drop_last();
        let before = distinct(front);
        lemma_distinct(front);
        assert(distinct(s) == if before.contains(s.last()) {
            before
        } else {
            before.push(s.last())
        });
        let after = distinct(s);
        assert forall|x: A| s.contains(x) implies after.contains(x) by {
            let i = choose|i: int| 0 <= i < s.len() && s[i] == x;
            if i < s.len() - 1 {
                assert(front[i] == s[i]);
                assert(front.contains(x));
                assert(before.contains(x));
                let j = choose|j: int| 0 <= j < before.len() && before[j] == x;
                assert(after[j] == before[j]);
            } else if before.contains(x) {
            } else {
                assert(after[before.len() as int] == x);
            }
        }
        assert forall|x: A| after.contains(x) implies s.contains(x) by {
            let j = choose|j: int| 0 <= j < after.len() && after[j] == x;
            if j < before.len() {
                assert(before[j] == after[j]);
                assert(before.contains(x));
                assert(front.contains(x));
                let i = choose|i: int| 0 <= i < front.len() && front[i] == x;
                assert(s[i] == front[i]);
            } else {
                assert(s[s.len() - 1] == x);
            }
        }
        assert(distinct(s).to_set() =~= s.to_set());
        distinct(s).unique_seq_to_set();
    }
}

/// What `resolve` answers: where the catalog has every name, one requestable action for
/// each name, in their order, each bearing its name; otherwise the first name that the
/// catalog does not have.
pub proof fn lemma_resolve(names: Seq<Seq<char>>)
    ensures
        match resolve(names) {
            Ok(actions) => actions.len() == names.len() && forall|j: int|
                0 <= j < names.len() ==> (#[trigger] actions[j]).is_requestable()
                    && actions[j].spec_name() == names[j],
            Err(name) => exists|j: int|
                0 <= j < names.len() && #[trigger] names[j] == name && spec_action_named(
                    names[j],
                ) is None && forall|k: int|
                    0 <= k < j ==> spec_action_named(#[trigger] names[k]) is Some,
        },
    decreases names.len(),
{
    if names.len() > 0 {
        let front = names.drop_last();
        lemma_resolve(front);
        lemma_action_named(names.last());
        match resolve(front) {
            Ok(actions) => {
                match spec_action_named(names.last()) {
                    Some(action) => {},
                    None => {
                        let j = names.len() - 1;
                        assert forall|k: int| 0 <= k < j implies spec_action_named(
                            #[trigger] names[k],
                        ) is Some by {
                            lemma_action_named(names[k]);
                            assert(front[k] == names[k]);
                            assert(actions[k].is_requestable());
                        }
                        assert(names[j] == names.last());
                    },
                }
            },
            Err(name) => {
                let j = choose|j: int|
                    0 <= j < front.len() && #[trigger] front[j] == name && spec_action_named(
                        front[j],
                    ) is None && forall|k: int|
                        0 <= k < j ==> spec_action_named(#[trigger] front[k]) is Some;
                assert(names[j] == name);
                assert forall|k: int| 0 <= k < j implies spec_action_named(
                    #[trigger] names[k],
                ) is Some by {
                    assert(front[k] == names[k]);
                }
            },
        }
    }
}

/// As many different actions are requested as different names are written.
proof fn lemma_as_many_actions_as_names(names: Seq<Seq<char>>)
    requires
        resolve(names) is Ok,
    ensures
        resolve(names)->Ok_0.to_set().len() == names.to_set().len(),
{
    let actions = resolve(names)->Ok_0;
    let name_of = |action: Action| action.spec_name();
    lemma_resolve(names);
    assert(actions.map_values(name_of) =~= names);
    actions.lemma_to_set_map_commutes(name_of);
    vstd::seq_lib::seq_to_set_is_finite(actions);
    assert forall|a: Action, b: Action|
        actions.to_set().contains(a) && actions.to_set().contains(b) && #[trigger] name_of(a)
            == #[trigger] name_of(b) implies a == b by {
        lemma_names_distinct(a, b);
    }
    vstd::set_lib::lemma_map_size(actions.to_set(), names.to_set(), name_of);
}

/// What a field gets. Its first operation is the base operation, and it is the only one.
/// After it come as many operations as the field requests different actions, one for each
/// of them and none for any other. Every operation is the one that the catalog's rule for
/// its action generates for the field, and bears the name made of that action and the
/// field's name.
#[verifier::rlimit(50)]
pub proof fn lemma_field_operations(owner: Seq<char>, field: FieldDescriptorView)
    requires
        field_operations(owner, field) is Ok,
    ensures
        ({
            let operations = field_operations(owner, field)->Ok_0;
            &&& operations.len() == 1 + field.actions.to_set().len()
            &&& operations[0] == operation_for(Action::Locate, field)
            &&& forall|k: int|
                0 <= k < operations.len() ==> #[trigger] operations[k] == operation_for(
                    operations[k].rule.action,
                    field,
                )
            &&& forall|k: int|
                1 <= k < operations.len() ==> (#[trigger] operations[k]).rule.action.is_requestable()
                    && field.actions.contains(operations[k].rule.action.spec_name())
            &&& forall|j: int, k: int|
                0 <= j < k < operations.len() ==> (#[trigger] operations[j]).rule.action != (
                #[trigger] operations[k]).rule.action
            &&& forall|n: int|
                0 <= n < field.actions.len() ==> exists|k: int|
                    1 <= k < operations.len() && (#[trigger] operations[k]).rule.action.spec_name()
                        == #[trigger] field.actions[n]
        }),
{
    let names = field.actions;
    let requested = resolve(names)->Ok_0;
    let kept = distinct(requested);
    let chosen = plan(requested);
    let operations = field_operations(owner, field)->Ok_0;
    lemma_resolve(names);
    lemma_distinct(requested);
    lemma_as_many_actions_as_names(names);
    assert(operations == operations_for(chosen, field));
    assert(operations.len() == chosen.len());
    assert(chosen[0] == Action::Locate);
    assert forall|k: int| 1 <= k < chosen.len() implies (#[trigger] chosen[k]).is_requestable()
        && names.contains(chosen[k].spec_name()) by {
        assert(chosen[k] == kept[k - 1]);
        assert(kept.contains(chosen[k]));
        assert(requested.contains(chosen[k]));
        let j = choose|j: int| 0 <= j < requested.len() && requested[j] == chosen[k];
        assert(requested[j].is_requestable());
        assert(names[j] == chosen[k].spec_name());
    }
    assert forall|k: int| 0 <= k < operations.len() implies #[trigger] operations[k]
        == operation_for(operations[k].rule.action, field) by {
        assert(operations[k] == operation_for(chosen[k], field));
    }
    assert forall|k: int| 1 <= k < operations.len() implies (
    #[trigger] operations[k]).rule.action.is_requestable() && field.actions.contains(
        operations[k].rule.action.spec_name(),
    ) by {
        assert(operations[k] == operation_for(chosen[k], field));
        assert(chosen[k].is_requestable());
    }
    assert forall|j: int, k: int| 0 <= j < k < operations.len() implies (
    #[trigger] operations[j]).rule.action != (#[trigger] operations[k]).rule.action by {
        assert(operations[j] == operation_for(chosen[j], field));
        assert(operations[k] == operation_for(chosen[k], field));
        assert(chosen[k].is_requestable());
        if j > 0 {
            assert(chosen[j] == kept[j - 1]);
            assert(chosen[k] == kept[k - 1]);
        }
    }
    assert forall|n: int| 0 <= n < field.actions.len() implies exists|k: int|
        1 <= k < operations.len() && (#[trigger] operations[k]).rule.action.spec_name()
            == #[trigger] field.actions[n] by {
        let action = requested[n];
        assert(requested.contains(action));
        assert(kept.contains(action));
        let j = choose|j: int| 0 <= j < kept.len() && kept[j] == action;
        assert(chosen[j + 1] == kept[j]);
        assert(operations[j + 1] == operation_for(chosen[j + 1], field));
        assert(operations[j + 1].rule.action.spec_name() == field.actions[n]);
    }
}

/// When a field fails: exactly where it requests a name that the catalog does not have.
/// The failure is then about the first such name, and names the type, the field and that
/// name as it was written.
pub proof fn lemma_field_failure(owner: Seq<char>, field: FieldDescriptorView)
    ensures
        field_operations(owner, field) is Err <==> exists|j: int|
            0 <= j < field.actions.len() && spec_action_named(#[trigger] field.actions[j])
                is None,
        field_operations(owner, field) matches Err(error) ==> exists|j: int|
            0 <= j < field.actions.len() && spec_action_named(#[trigger] field.actions[j])
                is None && (forall|k: int|
                0 <= k < j ==> spec_action_named(#[trigger] field.actions[k]) is Some) && error
                == (GenerationErrorView::UnknownAction {
                owner,
                field: field.name,
                action: field.actions[j],
            }),
{
    let names = field.actions;
    lemma_resolve(names);
    match resolve(names) {
        Ok(actions) => {
            assert forall|j: int| 0 <= j < names.len() implies spec_action_named(
                #[trigger] names[j],
            ) is Some by {
                lemma_action_named(names[j]);
                assert(actions[j].is_requestable());
            }
        },
        Err(name) => {},
    }
}

/// The operations that belong to the field named `field`.
pub open spec fn belongs_to(field: Seq<char>) -> spec_fn(GeneratedOperationView) -> bool {
    |operation: GeneratedOperationView| operation.field == field
}

/// The base operations.
pub open spec fn is_base() -> spec_fn(GeneratedOperationView) -> bool {
    |operation: GeneratedOperationView| operation.rule.action == Action::Locate
}

/// A filter that every item passes keeps the sequence as it is.
proof fn lemma_filter_keeps_all<A>(s: Seq<A>, pred: spec_fn(A) -> bool)
    requires
        forall|i: int| 0 <= i < s.len() ==> pred(#[trigger] s[i]),
    ensures
        s.filter(pred) == s,
    decreases s.len(),
{
    reveal(Seq::filter);
    if s.len() > 0 {
        let front = s.drop_last();
        assert forall|i: int| 0 <= i < front.len() implies pred(#[trigger] front[i]) by {
            assert(front[i] == s[i]);
        }
        lemma_filter_keeps_all(front, pred);
        assert(pred(s[s.len() - 1]));
        assert(front.push(s.last()) =~= s);
    }
}

/// A filter that no item passes keeps nothing.
proof fn lemma_filter_keeps_none<A>(s: Seq<A>, pred: spec_fn(A) -> bool)
    requires
        forall|i: int| 0 <= i < s.len() ==> !pred(#[trigger] s[i]),
    ensures
        s.filter(pred) == Seq::<A>::empty(),
    decreases s.len(),
{
    reveal(Seq::filter);
    if s.len() > 0 {
        let front = s.drop_last();
        assert forall|i: int| 0 <= i < front.len() implies !pred(#[trigger] front[i]) by {
            assert(front[i] == s[i]);
        }
        lemma_filter_keeps_none(front, pred);
        assert(!pred(s[s.len() - 1]));
    } else {
        assert(s =~= Seq::<A>::empty());
    }
}

/// Where operations are generated for some fields, they are generated for each of them
/// and for any number of the first of them.
pub proof fn lemma_every_field_succeeds(owner: Seq<char>, fields: Seq<FieldDescriptorView>, i: int)
    requires
        fields_operations(owner, fields) is Ok,
        0 <= i < fields.len(),
    ensures
        field_operations(owner, fields[i]) is Ok,
        fields_operations(owner, fields.take(i)) is Ok,
    decreases fields.len(),
{
    let front = fields.drop_last();
    if i < fields.len() - 1 {
        lemma_every_field_succeeds(owner, front, i);
        assert(front[i] == fields[i]);
        assert(front.take(i) =~= fields.take(i));
    } else {
        assert(fields.take(i) =~= front);
    }
}

/// Every generated operation comes from a field: the lemma names one among whose
/// operations it stands.
pub proof fn lemma_operation_origin(
    owner: Seq<char>,
    fields: Seq<FieldDescriptorView>,
    k: int,
) -> (i: int)
    requires
        fields_operations(owner, fields) is Ok,
        0 <= k < fields_operations(owner, fields)->Ok_0.len(),
    ensures
        0 <= i < fields.len(),
        field_operations(owner, fields[i]) is Ok,
        field_operations(owner, fields[i])->Ok_0.contains(
            fields_operations(owner, fields)->Ok_0[k],
        ),
    decreases fields.len(),
{
    let front = fields.drop_last();
    let before = fields_operations(owner, front)->Ok_0;
    let more = field_operations(owner, fields.last())->Ok_0;
    if k < before.len() {
        let i = lemma_operation_origin(owner, front, k);
        assert(front[i] == fields[i]);
        i
    } else {
        assert(more[k - before.len()] == (before + more)[k]);
        fields.len() - 1
    }
}

/// Every operation of a field bears the field's name.
proof fn lemma_field_owns_its_operations(owner: Seq<char>, field: FieldDescriptorView)
    requires
        field_operations(owner, field) is Ok,
    ensures
        forall|k: int|
            0 <= k < field_operations(owner, field)->Ok_0.len() ==> (
            #[trigger] field_operations(owner, field)->Ok_0[k]).field == field.name,
{
    lemma_field_operations(owner, field);
}

/// In what is generated for a valid description, the operations that belong to a field
/// are those that are generated for that field, in that order.
pub proof fn lemma_operations_of_field(ty: PageObjectTypeView, i: int)
    requires
        ty.wf(),
        spec_synthesize(ty) is Ok,
        0 <= i < ty.fields.len(),
    ensures
        field_operations(ty.name, ty.fields[i]) is Ok,
        spec_synthesize(ty)->Ok_0.operations.filter(belongs_to(ty.fields[i].name))
            == field_operations(ty.name, ty.fields[i])->Ok_0,
{
    lemma_slice_of_field(ty.name, ty.fields, i);
}

#[verifier::rlimit(50)]
proof fn lemma_slice_of_field(owner: Seq<char>, fields: Seq<FieldDescriptorView>, i: int)
    requires
        distinct_names(fields),
        fields_operations(owner, fields) is Ok,
        0 <= i < fields.len(),
    ensures
        field_operations(owner, fields[i]) is Ok,
        fields_operations(owner, fields)->Ok_0.filter(belongs_to(fields[i].name))
            == field_operations(owner, fields[i])->Ok_0,
    decreases fields.len(),
{
    let front = fields.drop_last();
    let before = fields_operations(owner, front)->Ok_0;
    let more = field_operations(owner, fields.last())->Ok_0;
    let mine = belongs_to(fields[i].name);
    Seq::filter_distributes_over_add(before, more, mine);
    lemma_field_owns_its_operations(owner, fields.last());
    if i < fields.len() - 1 {
        assert(front[i] == fields[i]);
        assert forall|a: int, b: int| 0 <= a < b < front.len() implies (#[trigger] front[a]).name
            != (#[trigger] front[b]).name by {
            assert(front[a] == fields[a] && front[b] == fields[b]);
        }
        lemma_slice_of_field(owner, front, i);
        assert forall|k: int| 0 <= k < more.len() implies !mine(#[trigger] more[k]) by {
            assert(fields[i].name != fields[fields.len() - 1].name);
        }
        lemma_filter_keeps_none(more, mine);
        assert(before.filter(mine) + Seq::<GeneratedOperationView>::empty() =~= before.filter(
            mine,
        ));
    } else {
        assert forall|k: int| 0 <= k < before.len() implies !mine(#[trigger] before[k]) by {
            let j = lemma_operation_origin(owner, front, k);
            lemma_field_owns_its_operations(owner, front[j]);
            let theirs = field_operations(owner, front[j])->Ok_0;
            let at = choose|at: int| 0 <= at < theirs.len() && theirs[at] == before[k];
            assert(theirs[at].field == front[j].name);
            assert(front[j] == fields[j]);
            assert(fields[j].name != fields[fields.len() - 1].name);
        }
        lemma_filter_keeps_none(before, mine);
        assert forall|k: int| 0 <= k < more.len() implies mine(#[trigger] more[k]) by {}
        lemma_filter_keeps_all(more, mine);
        assert(Seq::<GeneratedOperationView>::empty() + more =~= more);
    }
}

/// There are as many base operations as there are fields.
pub proof fn lemma_one_base_operation_per_field(ty: PageObjectTypeView)
    requires
        spec_synthesize(ty) is Ok,
    ensures
        spec_synthesize(ty)->Ok_0.operations.filter(is_base()).len() == ty.fields.len(),
{
    lemma_count_of_base_operations(ty.name, ty.fields);
}

proof fn lemma_count_of_base_operations(owner: Seq<char>, fields: Seq<FieldDescriptorView>)
    requires
        fields_operations(owner, fields) is Ok,
    ensures
        fields_operations(owner, fields)->Ok_0.filter(is_base()).len() == fields.len(),
    decreases fields.len(),
{
    reveal(Seq::filter);
    if fields.len() > 0 {
        let front = fields.drop_last();
        let before = fields_operations(owner, front)->Ok_0;
        let more = field_operations(owner, fields.last())->Ok_0;
        lemma_count_of_base_operations(owner, front);
        Seq::filter_distributes_over_add(before, more, is_base());
        lemma_base_of_field(owner, fields.last());
    }
}

/// No two operations generated for a valid description bear the same name.
pub proof fn lemma_names_are_unique(ty: PageObjectTypeView)
    requires
        ty.wf(),
        spec_synthesize(ty) is Ok,
    ensures
        forall|j: int, k: int|
            0 <= j < k < spec_synthesize(ty)->Ok_0.operations.len() ==> (
            #[trigger] spec_synthesize(ty)->Ok_0.operations[j]).name != (
            #[trigger] spec_synthesize(ty)->Ok_0.operations[k]).name,
{
    lemma_unique_names(ty.name, ty.fields);
}

#[verifier::rlimit(50)]
proof fn lemma_unique_names(owner: Seq<char>, fields: Seq<FieldDescriptorView>)
    requires
        distinct_names(fields),
        fields_operations(owner, fields) is Ok,
    ensures
        forall|j: int, k: int|
            0 <= j < k < fields_operations(owner, fields)->Ok_0.len() ==> (
            #[trigger] fields_operations(owner, fields)->Ok_0[j]).name != (
            #[trigger] fields_operations(owner, fields)->Ok_0[k]).name,
    decreases fields.len(),
{
    if fields.len() > 0 {
        let front = fields.drop_last();
        let last = fields.last();
        let before = fields_operations(owner, front)->Ok_0;
        let more = field_operations(owner, last)->Ok_0;
        let all = fields_operations(owner, fields)->Ok_0;
        assert(all == before + more);
        assert forall|a: int, b: int| 0 <= a < b < front.len() implies (#[trigger] front[a]).name
            != (#[trigger] front[b]).name by {
            assert(front[a] == fields[a] && front[b] == fields[b]);
        }
        lemma_unique_names(owner, front);
        lemma_field_operations(owner, last);
        assert forall|j: int, k: int| 0 <= j < k < all.len() implies (#[trigger] all[j]).name != (
        #[trigger] all[k]).name by {
            if k < before.len() {
                assert(all[j] == before[j] && all[k] == before[k]);
            } else {
                let second = more[k - before.len()];
                assert(all[k] == second);
                assert(second == operation_for(second.rule.action, last));
                if j < before.len() {
                    let first = before[j];
                    assert(all[j] == first);
                    let i = lemma_operation_origin(owner, front, j);
                    lemma_field_operations(owner, front[i]);
                    let theirs = field_operations(owner, front[i])->Ok_0;
                    let at = choose|at: int| 0 <= at < theirs.len() && theirs[at] == first;
                    assert(theirs[at] == operation_for(theirs[at].rule.action, front[i]));
                    assert(front[i] == fields[i]);
                    assert(fields[i].name != fields[fields.len() - 1].name);
                    if first.name == second.name {
                        lemma_method_names_injective(
                            first.rule.action,
                            front[i].name,
                            second.rule.action,
                            last.name,
                        );
                    }
                } else {
                    let first = more[j - before.len()];
                    assert(all[j] == first);
                    assert(first == operation_for(first.rule.action, last));
                    assert(first.rule.action != second.rule.action);
                    if first.name == second.name {
                        lemma_method_names_injective(
                            first.rule.action,
                            last.name,
                            second.rule.action,
                            last.name,
                        );
                    }
                }
            }
        }
    }
}

/// When the fields fail: exactly where one of them does. The failure is then that of the
/// first field that fails.
pub proof fn lemma_fields_failure(owner: Seq<char>, fields: Seq<FieldDescriptorView>)
    ensures
        fields_operations(owner, fields) is Err <==> exists|i: int|
            0 <= i < fields.len() && field_operations(owner, #[trigger] fields[i]) is Err,
        fields_operations(owner, fields) matches Err(error) ==> exists|i: int|
            0 <= i < fields.len() && field_operations(owner, #[trigger] fields[i]) == Err::<
                Seq<GeneratedOperationView>,
                GenerationErrorView,
            >(error) && forall|k: int|
                0 <= k < i ==> field_operations(owner, #[trigger] fields[k]) is Ok,
    decreases fields.len(),
{
    if fields.len() > 0 {
        let front = fields.drop_last();
        lemma_fields_failure(owner, front);
        assert(forall|k: int| 0 <= k < front.len() ==> front[k] == fields[k]);
        match fields_operations(owner, front) {
            Err(error) => {
                let i = choose|i: int|
                    0 <= i < front.len() && field_operations(owner, #[trigger] front[i]) == Err::<
                        Seq<GeneratedOperationView>,
                        GenerationErrorView,
                    >(error) && forall|k: int|
                        0 <= k < i ==> field_operations(owner, #[trigger] front[k]) is Ok;
                assert(field_operations(owner, fields[i]) is Err);
                assert forall|k: int| 0 <= k < i implies field_operations(
                    owner,
                    #[trigger] fields[k],
                ) is Ok by {
                    assert(front[k] == fields[k]);
                }
            },
            Ok(_) => {
                let last = fields.len() - 1;
                assert(fields[last] == fields.last());
                assert forall|k: int| 0 <= k < last implies field_operations(
                    owner,
                    #[trigger] fields[k],
                ) is Ok by {
                    assert(front[k] == fields[k]);
                }
                if field_operations(owner, fields.last()) is Ok {
                    assert forall|i: int| 0 <= i < fields.len() implies !(field_operations(
                        owner,
                        #[trigger] fields[i],
                    ) is Err) by {
                        if i < last {
                            assert(front[i] == fields[i]);
                        }
                    }
                }
            },
        }
    }
}

/// A name outside the catalog fails the whole type. Synthesis fails exactly where some
/// field requests a name that the catalog does not have. The failure is then about the
/// first such name of the first such field; it names the type, that field and that name,
/// and so does its message.
pub proof fn lemma_synthesis_failure(ty: PageObjectTypeView)
    ensures
        spec_synthesize(ty) is Err <==> exists|i: int, j: int|
            0 <= i < ty.fields.len() && 0 <= j < ty.fields[i].actions.len() && spec_action_named(
                #[trigger] ty.fields[i].actions[j],
            ) is None,
        spec_synthesize(ty) matches Err(error) ==> exists|i: int, j: int|
            0 <= i < ty.fields.len() && 0 <= j < ty.fields[i].actions.len() && spec_action_named(
                #[trigger] ty.fields[i].actions[j],
            ) is None && error == (GenerationErrorView::UnknownAction {
                owner: ty.name,
                field: ty.fields[i].name,
                action: ty.fields[i].actions[j],
            }) && holds_text(error.message(), ty.name) && holds_text(
                error.message(),
                ty.fields[i].name,
            ) && holds_text(error.message(), ty.fields[i].actions[j]),
{
    let owner = ty.name;
    let fields = ty.fields;
    lemma_fields_failure(owner, fields);
    if exists|i: int, j: int|
        0 <= i < fields.len() && 0 <= j < fields[i].actions.len() && spec_action_named(
            #[trigger] fields[i].actions[j],
        ) is None {
        let (i, j) = choose|i: int, j: int|
            0 <= i < fields.len() && 0 <= j < fields[i].actions.len() && spec_action_named(
                #[trigger] fields[i].actions[j],
            ) is None;
        lemma_field_failure(owner, fields[i]);
        assert(field_operations(owner, fields[i]) is Err);
    }
    match spec_synthesize(ty) {
        Err(error) => {
            let i = choose|i: int|
                0 <= i < fields.len() && field_operations(owner, #[trigger] fields[i]) == Err::<
                    Seq<GeneratedOperationView>,
                    GenerationErrorView,
                >(error);
            lemma_field_failure(owner, fields[i]);
            let j = choose|j: int|
                0 <= j < fields[i].actions.len() && spec_action_named(
                    #[trigger] fields[i].actions[j],
                ) is None && error == (GenerationErrorView::UnknownAction {
                    owner,
                    field: fields[i].name,
                    action: fields[i].actions[j],
                });
            lemma_message_names_its_subject(error);
            assert(spec_action_named(ty.fields[i].actions[j]) is None);
        },
        Ok(_) => {},
    }
}

/// Every failure of requested names is about the type and the field that they were asked
/// for.
proof fn lemma_names_failure(owner: Seq<char>, field: Seq<char>, attributes: Seq<AttributeView>)
    ensures
        requested_names(owner, field, attributes) matches Err(error) ==> error.owner() == owner,
    decreases attributes.len(),
{
    if attributes.len() > 0 {
        lemma_names_failure(owner, field, attributes.drop_last());
    }
}

/// Every failure among declared fields is about the type that they were declared in.
proof fn lemma_declared_failure(owner: Seq<char>, fields: Seq<FieldDeclarationView>)
    ensures
        declared_operations(owner, fields) matches Err(error) ==> error.owner() == owner,
    decreases fields.len(),
{
    if fields.len() > 0 {
        let last = fields.last();
        lemma_declared_failure(owner, fields.drop_last());
        match last.name {
            Some(name) => {
                lemma_names_failure(owner, name, last.attributes);
            },
            None => {},
        }
    }
}

/// A type that is not a plain record of named fields gets nothing generated: generation
/// fails, and the failure and its message name the type.
pub proof fn lemma_not_a_record_fails(input: TypeDeclarationView)
    requires
        !input.is_record(),
    ensures
        spec_impl_thirtyfour_actions(input) == Err::<GeneratedMethodSetView, GenerationErrorView>(
            GenerationErrorView::NotARecord { owner: input.name },
        ),
        spec_extract(input) == Err::<PageObjectTypeView, GenerationErrorView>(
            GenerationErrorView::NotARecord { owner: input.name },
        ),
        holds_text((GenerationErrorView::NotARecord { owner: input.name }).message(), input.name),
{
    lemma_message_names_its_subject(GenerationErrorView::NotARecord { owner: input.name });
}

/// Whatever makes generation fail, the failure is about the declared type, and its message
/// names that type.
pub proof fn lemma_failure_names_the_type(input: TypeDeclarationView)
    ensures
        spec_impl_thirtyfour_actions(input) matches Err(error) ==> error.owner() == input.name
            && holds_text(error.message(), input.name),
{
    lemma_declared_failure(input.name, input.fields);
    match spec_impl_thirtyfour_actions(input) {
        Err(error) => {
            lemma_message_names_its_subject(error);
        },
        Ok(_) => {},
    }
}

/// A failing field fails the declared type, whichever field it is.
pub proof fn lemma_declared_field_failure(owner: Seq<char>, fields: Seq<FieldDeclarationView>, i: int)
    requires
        0 <= i < fields.len(),
        declared_field_operations(owner, fields[i]) is Err,
    ensures
        declared_operations(owner, fields) is Err,
    decreases fields.len(),
{
    let front = fields.drop_last();
    if i < fields.len() - 1 {
        assert(front[i] == fields[i]);
        lemma_declared_field_failure(owner, front, i);
    }
}

/// A name outside the catalog fails the declared type: where one of its fields requests,
/// in one of its attributes, a name that the catalog does not have, nothing is generated.
pub proof fn lemma_unknown_action_fails(input: TypeDeclarationView, i: int, j: int)
    requires
        0 <= i < input.fields.len(),
        spec_extract_field(input.name, input.fields[i]) matches Ok(descriptor) && 0 <= j
            < descriptor.actions.len() && spec_action_named(descriptor.actions[j]) is None,
    ensures
        spec_impl_thirtyfour_actions(input) is Err,
{
    let descriptor = spec_extract_field(input.name, input.fields[i])->Ok_0;
    lemma_field_failure(input.name, descriptor);
    if input.is_record() {
        lemma_declared_field_failure(input.name, input.fields, i);
    }
}

/// The same input always gives the same output: declarations that read the same have the
/// same operations generated, in the same order and under the same names, or the same
/// failure; and the same operations are written as the same text, character for character.
pub proof fn lemma_generation_is_deterministic(first: TypeDeclarationView, second: TypeDeclarationView)
    requires
        first.name == second.name,
        first.kind == second.kind,
        first.fields =~~= second.fields,
    ensures
        spec_impl_thirtyfour_actions(first) == spec_impl_thirtyfour_actions(second),
        spec_impl_thirtyfour_actions(first) matches Ok(set) ==> spec_render(set) == spec_render(
            spec_impl_thirtyfour_actions(second)->Ok_0,
        ),
{
    assert(first.fields == second.fields);
}

/// Where `trim_start` begins in `s`: what it yields is `s` from there on.
proof fn lemma_trim_start_begins(s: Seq<char>) -> (k: int)
    ensures
        0 <= k <= s.len(),
        trim_start(s) == s.skip(k),
        forall|i: int| 0 <= i < k ==> is_blank(s[i]),
        k < s.len() ==> !is_blank(s[k]),
    decreases s.len(),
{
    if s.len() > 0 && is_blank(s[0]) {
        let rest = s.skip(1);
        let k = lemma_trim_start_begins(rest);
        assert(rest.skip(k) =~= s.skip(k + 1));
        assert forall|i: int| 0 <= i < k + 1 implies is_blank(s[i]) by {
            if i > 0 {
                assert(s[i] == rest[i - 1]);
            }
        }
        if k + 1 < s.len() {
            assert(s[k + 1] == rest[k]);
        }
        k + 1
    } else {
        assert(s.skip(0) =~= s);
        0
    }
}

/// Where `trim_end` ends in `s`: what it yields is `s` up to there.
proof fn lemma_trim_end_ends(s: Seq<char>) -> (k: int)
    ensures
        0 <= k <= s.len(),
        trim_end(s) == s.take(k),
        forall|i: int| k <= i < s.len() ==> is_blank(s[i]),
        0 < k ==> !is_blank(s[k - 1]),
    decreases s.len(),
{
    if s.len() > 0 && is_blank(s.last()) {
        let front = s.drop_last();
        let k = lemma_trim_end_ends(front);
        assert(front.take(k) =~= s.take(k));
        assert forall|i: int| k <= i < s.len() implies is_blank(s[i]) by {
            if i < front.len() {
                assert(s[i] == front[i]);
            }
        }
        if 0 < k {
            assert(s[k - 1] == front[k - 1]);
        }
        k
    } else {
        assert(s.take(s.len() as int) =~= s);
        s.len() as int
    }
}

/// A list without parentheses is read as it stands.
proof fn lemma_plain_list(list: Seq<char>)
    requires
        forall|i: int| 0 <= i < list.len() ==> list[i] != '(' && list[i] != ')',
    ensures
        spec_parse(list) == list_items(list),
{
    let from = lemma_trim_start_begins(list);
    let started = trim_start(list);
    let upto = lemma_trim_end_ends(started);
    let t = trim(list);
    assert(forall|i: int| 0 <= i < t.len() ==> t[i] == list[from + i]);
    let after = lemma_trim_start_begins(t.skip(7));
    let u = strip_keyword(t);
    if u != t {
        let rest = trim_start(t.skip(7));
        assert(rest[0] == t.skip(7)[after]);
        assert(t.skip(7)[after] == t[7 + after]);
    }
    if is_parenthesized(u) {
        assert(u[0] == t[0]);
    }
}

/// Both forms of an action list hold the same names: a list of names reads the same as
/// plain text, between parentheses, and between parentheses after the keyword `methods`.
pub proof fn lemma_forms_agree(list: Seq<char>)
    requires
        forall|i: int| 0 <= i < list.len() ==> list[i] != '(' && list[i] != ')',
    ensures
        spec_parse("methods("@ + list + ")"@) == spec_parse(list),
        spec_parse("("@ + list + ")"@) == spec_parse(list),
        spec_parse(list) == list_items(list),
{
    reveal_strlit("methods(");
    reveal_strlit("methods");
    reveal_strlit("(");
    reveal_strlit(")");
    lemma_plain_list(list);
    let bare = "("@ + list + ")"@;
    assert(trim_start(bare) == bare);
    assert(trim_end(bare) == bare);
    if bare.len() >= 7 {
        assert(bare.take(7)[0] == '(');
    }
    assert(strip_keyword(bare) == bare);
    assert(bare.subrange(1, bare.len() - 1) =~= list);
    let full = "methods("@ + list + ")"@;
    assert(trim_start(full) == full);
    assert(trim_end(full) == full);
    assert(full.take(7) =~= "methods"@);
    assert(full.skip(7) =~= bare);
    assert(strip_keyword(full) == bare);
}

/// The base operation and the existence check never fail. Whatever the driver replies,
/// they are done at once and return a value; where the driver rejects the query, the base
/// operation returns no element and the existence check returns `false`.
pub proof fn lemma_never_fails(
    operation: GeneratedOperationView,
    argument: ArgumentView,
    reply: ReplyView,
)
    requires
        !operation.rule.spec_can_fail(),
    ensures
        spec_resume(operation, argument, Stage::Acquiring, reply) matches ProgressView::Done(
            OutcomeView::Returned(_),
        ),
        reply is Rejected && operation.rule.acquisition == Acquisition::Query ==> spec_resume(
            operation,
            argument,
            Stage::Acquiring,
            reply,
        ) == ProgressView::Done(OutcomeView::Returned(ValueView::OptionalElement(None))),
        reply is Rejected && operation.rule.acquisition == Acquisition::Probe ==> spec_resume(
            operation,
            argument,
            Stage::Acquiring,
            reply,
        ) == ProgressView::Done(OutcomeView::Returned(ValueView::Flag(false))),
{
}

/// An absent element is one failure, the same for every operation that works on an
/// element: whether the query matched nothing or the driver rejected it, the operation
/// fails with the field's name and ` not found`, and asks nothing more of the driver.
pub proof fn lemma_absent_element_fails(
    operation: GeneratedOperationView,
    argument: ArgumentView,
    reply: ReplyView,
)
    requires
        operation.rule.acquisition == Acquisition::Locate,
        !(reply matches ReplyView::Answered(ValueView::OptionalElement(Some(_)))),
    ensures
        spec_resume(operation, argument, Stage::Acquiring, reply) == ProgressView::Done(
            OutcomeView::Failed(spec_not_found(operation.field)),
        ),
{
}

/// A rejected call fails the operation with a message that names the field and ends with
/// the driver's own words.
pub proof fn lemma_rejection_wraps_the_cause(
    operation: GeneratedOperationView,
    argument: ArgumentView,
    element: ElementHandle,
    cause: Seq<char>,
)
    ensures
        spec_resume(operation, argument, Stage::Calling { element }, ReplyView::Rejected(cause))
            == ProgressView::Done(
            OutcomeView::Failed(
                spec_rejection(operation.rule.action, argument, operation.field, cause),
            ),
        ),
        holds_text(
            spec_rejection(operation.rule.action, argument, operation.field, cause),
            operation.field,
        ),
        ({
            let message = spec_rejection(operation.rule.action, argument, operation.field, cause);
            message.len() >= cause.len() && message.skip(message.len() - cause.len()) == cause
        }),
{
    let message = spec_rejection(operation.rule.action, argument, operation.field, cause);
    let start = message.take(
        message.len() - cause.len() - 2 - spec_failure_tail(
            operation.rule.action,
        ).len() - operation.field.len(),
    );
    reveal_strlit(": ");
    let rest = spec_failure_tail(operation.rule.action) + ": "@ + cause;
    assert(message =~= start + operation.field + rest);
    lemma_holds_middle(start, operation.field, rest);
    assert(message.skip(message.len() - cause.len()) =~= cause);
}

/// What an operation is handed goes to the driver as it is: the locator in the query for
/// the element, and the argument in the call, for every action that passes its argument
/// on.
pub proof fn lemma_passed_through_untouched(
    operation: GeneratedOperationView,
    argument: ArgumentView,
    element: ElementHandle,
)
    ensures
        spec_request(operation, argument, Stage::Acquiring) matches RequestView::Query {
            locator,
            ..
        } && locator == operation.locator,
        ({
            let action = operation.rule.action;
            action == Action::EnterKeys || action == Action::DragTo || action
                == Action::GetAttribute || action == Action::GetCssValue || action
                == Action::SelectByText || action == Action::SelectByValue || action
                == Action::SelectByIndex
        }) ==> spec_request(operation, argument, Stage::Calling { element })
            == (RequestView::Element { call: operation.rule.call, element, argument }),
{
}

/// Among the operations of one field, the base operation is the first and the only one.
proof fn lemma_base_of_field(owner: Seq<char>, field: FieldDescriptorView)
    requires
        field_operations(owner, field) is Ok,
    ensures
        field_operations(owner, field)->Ok_0.filter(is_base()) == seq![
            operation_for(Action::Locate, field),
        ],
{
    let operations = field_operations(owner, field)->Ok_0;
    lemma_field_operations(owner, field);
    let first = operations.take(1);
    let rest = operations.skip(1);
    assert(operations =~= first + rest);
    Seq::filter_distributes_over_add(first, rest, is_base());
    assert forall|k: int| 0 <= k < rest.len() implies !is_base()(#[trigger] rest[k]) by {
        assert(rest[k] == operations[k + 1]);
    }
    lemma_filter_keeps_none(rest, is_base());
    assert forall|k: int| 0 <= k < first.len() implies is_base()(#[trigger] first[k]) by {
        assert(first[k] == operations[0]);
    }
    lemma_filter_keeps_all(first, is_base());
    assert(first + Seq::<GeneratedOperationView>::empty() =~= seq![
        operation_for(Action::Locate, field),
    ]);
}

/// Every field of a valid description gets exactly one base operation, named `locate_`
/// and the field's name: among the operations that are generated for the type, those that
/// belong to the field hold one base operation and no more.
#[verifier::rlimit(50)]
pub proof fn lemma_one_locate_per_field(ty: PageObjectTypeView, i: int)
    requires
        ty.wf(),
        spec_synthesize(ty) is Ok,
        0 <= i < ty.fields.len(),
    ensures
        ({
            let found = spec_synthesize(ty)->Ok_0.operations.filter(
                belongs_to(ty.fields[i].name),
            ).filter(is_base());
            &&& found.len() == 1
            &&& found[0] == operation_for(Action::Locate, ty.fields[i])
            &&& found[0].name == "locate_"@ + ty.fields[i].name
        }),
{
    lemma_operations_of_field(ty, i);
    lemma_base_of_field(ty.name, ty.fields[i]);
    lemma_name_of_base(ty.fields[i].name);
}

/// The base operation of a field is named `locate_` and the field's name.
pub proof fn lemma_name_of_base(field: Seq<char>)
    ensures
        Action::Locate.spec_method_name(field) == "locate_"@ + field,
{
    reveal_strlit("locate");
    reveal_strlit("_");
    reveal_strlit("locate_");
    assert("locate"@ + "_"@ =~= "locate_"@);
}

/// Every field of a valid description gets, besides its base operation, exactly one
/// operation for each different action that it requests, and none for any other: among
/// the operations that are generated for the type, those that belong to the field are the
/// base operation and then as many as the field requests different names, each bearing
/// the name made of its action and the field's name, each for an action that the field
/// requests, no two for the same action; and every requested name has its operation.
pub proof fn lemma_one_operation_per_requested_action(ty: PageObjectTypeView, i: int)
    requires
        ty.wf(),
        spec_synthesize(ty) is Ok,
        0 <= i < ty.fields.len(),
    ensures
        ({
            let field = ty.fields[i];
            let mine = spec_synthesize(ty)->Ok_0.operations.filter(belongs_to(field.name));
            &&& mine.len() == 1 + field.actions.to_set().len()
            &&& forall|k: int|
                0 <= k < mine.len() ==> (#[trigger] mine[k]).name
                    == mine[k].rule.action.spec_method_name(field.name) && mine[k].rule
                    == mine[k].rule.action.spec_rule()
            &&& forall|k: int|
                1 <= k < mine.len() ==> (#[trigger] mine[k]).rule.action.is_requestable()
                    && field.actions.contains(mine[k].rule.action.spec_name())
            &&& forall|j: int, k: int|
                0 <= j < k < mine.len() ==> (#[trigger] mine[j]).rule.action != (
                #[trigger] mine[k]).rule.action
            &&& forall|n: int|
                0 <= n < field.actions.len() ==> exists|k: int|
                    1 <= k < mine.len() && (#[trigger] mine[k]).rule.action.spec_name()
                        == #[trigger] field.actions[n]
        }),
{
    lemma_operations_of_field(ty, i);
    lemma_field_operations(ty.name, ty.fields[i]);
}

/// A failure of requested names is about an attribute of the field that requests actions
/// and holds no action list.
proof fn lemma_names_failure_is_scoped(
    owner: Seq<char>,
    field: Seq<char>,
    attributes: Seq<AttributeView>,
)
    ensures
        requested_names(owner, field, attributes) matches Err(error) ==> exists|j: int|
            0 <= j < attributes.len() && requests_actions(#[trigger] attributes[j]) && spec_parse(
                attributes[j].arguments,
            ) is None && error == (GenerationErrorView::MalformedActionList {
                owner,
                field,
                text: attributes[j].arguments,
            }),
    decreases attributes.len(),
{
    if attributes.len() > 0 {
        let front = attributes.drop_last();
        lemma_names_failure_is_scoped(owner, field, front);
        match requested_names(owner, field, front) {
            Err(error) => {
                let j = choose|j: int|
                    0 <= j < front.len() && requests_actions(#[trigger] front[j]) && spec_parse(
                        front[j].arguments,
                    ) is None && error == (GenerationErrorView::MalformedActionList {
                        owner,
                        field,
                        text: front[j].arguments,
                    });
                assert(attributes[j] == front[j]);
            },
            Ok(_) => {
                assert(attributes[attributes.len() - 1] == attributes.last());
            },
        }
    }
}

/// Whether the failure is one of the declared field: about one of its attributes that
/// holds no action list, or about a name that it requests and the catalog does not have.
pub open spec fn is_failure_of(
    error: GenerationErrorView,
    owner: Seq<char>,
    field: FieldDeclarationView,
) -> bool {
    match error {
        GenerationErrorView::NotARecord { .. } => false,
        GenerationErrorView::MalformedActionList { owner: named, field: name, text } => {
            &&& named == owner
            &&& field.name == Some(name)
            &&& exists|j: int|
                0 <= j < field.attributes.len() && requests_actions(
                    #[trigger] field.attributes[j],
                ) && field.attributes[j].arguments == text && spec_parse(text) is None
        },
        GenerationErrorView::UnknownAction { owner: named, field: name, action } => {
            &&& named == owner
            &&& field.name == Some(name)
            &&& spec_extract_field(owner, field) matches Ok(descriptor)
            &&& descriptor.actions.contains(action)
            &&& spec_action_named(action) is None
        },
    }
}

#[verifier::rlimit(50)]
proof fn lemma_declared_failure_is_scoped(owner: Seq<char>, fields: Seq<FieldDeclarationView>)
    requires
        forall|i: int| 0 <= i < fields.len() ==> (#[trigger] fields[i]).name is Some,
    ensures
        declared_operations(owner, fields) matches Err(error) ==> exists|i: int|
            0 <= i < fields.len() && is_failure_of(error, owner, #[trigger] fields[i]),
    decreases fields.len(),
{
    if fields.len() > 0 {
        let front = fields.drop_last();
        let last = fields.last();
        assert(forall|i: int| 0 <= i < front.len() ==> front[i] == fields[i]);
        lemma_declared_failure_is_scoped(owner, front);
        match declared_operations(owner, front) {
            Err(error) => {
                let i = choose|i: int|
                    0 <= i < front.len() && is_failure_of(error, owner, #[trigger] front[i]);
                assert(fields[i] == front[i]);
            },
            Ok(_) => {
                let at = fields.len() - 1;
                assert(fields[at] == last);
                let name = last.name->Some_0;
                lemma_names_failure_is_scoped(owner, name, last.attributes);
                match spec_extract_field(owner, last) {
                    Ok(descriptor) => {
                        lemma_field_failure(owner, descriptor);
                        if field_operations(owner, descriptor) is Err {
                            let error = field_operations(owner, descriptor)->Err_0;
                            let j = choose|j: int|
                                0 <= j < descriptor.actions.len() && spec_action_named(
                                    #[trigger] descriptor.actions[j],
                                ) is None && error == (GenerationErrorView::UnknownAction {
                                    owner,
                                    field: descriptor.name,
                                    action: descriptor.actions[j],
                                });
                            assert(descriptor.actions.contains(descriptor.actions[j]));
                            assert(is_failure_of(error, owner, fields[at]));
                        }
                    },
                    Err(error) => {
                        assert(is_failure_of(error, owner, fields[at]));
                    },
                }
            },
        }
    }
}

/// Every failure is scoped. Generation fails either because the type is no plain record
/// of named fields, and says so of the type; or because of one declared field, and then
/// the failure names the type and that field, and is about an attribute of that field
/// which holds no action list, or about a name which that field requests and the catalog
/// does not have.
pub proof fn lemma_failure_is_scoped(input: TypeDeclarationView)
    ensures
        spec_impl_thirtyfour_actions(input) matches Err(error) ==> if input.is_record() {
            exists|i: int|
                0 <= i < input.fields.len() && is_failure_of(
                    error,
                    input.name,
                    #[trigger] input.fields[i],
                )
        } else {
            error == (GenerationErrorView::NotARecord { owner: input.name })
        },
{
    if input.is_record() {
        lemma_declared_failure_is_scoped(input.name, input.fields);
    }
}

/// The pieces put together again, with a comma between each two.
pub open spec fn joined(pieces: Seq<Seq<char>>) -> Seq<char>
    decreases pieces.len(),
{
    if pieces.len() == 0 {
        Seq::empty()
    } else if pieces.len() == 1 {
        pieces[0]
    } else {
        joined(pieces.drop_last()).push(',') + pieces.last()
    }
}

/// The commas of a text cut it into its pieces and nothing gets lost: there is at least
/// one piece, no piece holds a comma, and the pieces with commas between them are the
/// text.
pub proof fn lemma_segments(s: Seq<char>)
    ensures
        segments(s).len() >= 1,
        forall|k: int, i: int|
            0 <= k < segments(s).len() && 0 <= i < segments(s)[k].len() ==> (
            #[trigger] segments(s)[k][i]) != ',',
        joined(segments(s)) == s,
    decreases s.len(),
{
    if s.len() == 0 {
        assert(segments(s)[0] =~= s);
    } else {
        let front = s.drop_last();
        let before = segments(front);
        let after = segments(s);
        lemma_segments(front);
        if s.last() == ',' {
            assert(after.drop_last() =~= before);
            assert(joined(after) =~= s);
            assert forall|k: int, i: int|
                0 <= k < after.len() && 0 <= i < after[k].len() implies (#[trigger] after[k][i])
                != ',' by {
                assert(after[k] == before[k]);
                assert(before[k][i] != ',');
            }
        } else {
            let grown = before.last().push(s.last());
            assert(after.last() == grown);
            if before.len() == 1 {
                assert(before[0] == front);
                assert(joined(after) =~= s);
            } else {
                assert(after.drop_last() =~= before.drop_last());
                assert(joined(after) =~= (joined(before.drop_last()).push(',') + before.last()).push(
                    s.last(),
                ));
                assert(joined(after) =~= s);
            }
            assert forall|k: int, i: int|
                0 <= k < after.len() && 0 <= i < after[k].len() implies (#[trigger] after[k][i])
                != ',' by {
                if k < after.len() - 1 {
                    assert(after[k] == before[k]);
                    assert(before[k][i] != ',');
                } else if i < before.last().len() {
                    assert(after[k][i] == before[before.len() - 1][i]);
                    assert(before[before.len() - 1][i] != ',');
                }
            }
        }
    }
}

/// What is generated for a valid description is well formed: every operation bears the
/// name made of its action and its field and carries the catalog's rule for its action,
/// and no two operations bear the same name.
pub proof fn lemma_generated_set_is_well_formed(ty: PageObjectTypeView)
    requires
        ty.wf(),
        spec_synthesize(ty) is Ok,
    ensures
        spec_synthesize(ty)->Ok_0.wf(),
{
    let set = spec_synthesize(ty)->Ok_0;
    lemma_names_are_unique(ty);
    assert forall|k: int| 0 <= k < set.operations.len() implies (#[trigger] set.operations[k]).wf() by {
        let i = lemma_operation_origin(ty.name, ty.fields, k);
        lemma_field_operations(ty.name, ty.fields[i]);
        let theirs = field_operations(ty.name, ty.fields[i])->Ok_0;
        let at = choose|at: int| 0 <= at < theirs.len() && theirs[at] == set.operations[k];
        assert(theirs[at] == operation_for(theirs[at].rule.action, ty.fields[i]));
    }
}

/// What `trim` leaves: a stretch of the text with nothing but blanks before it and after
/// it, which neither starts nor ends with a blank.
pub proof fn lemma_trim(s: Seq<char>) -> (span: (int, int))
    ensures
        0 <= span.0 <= span.1 <= s.len(),
        trim(s) == s.subrange(span.0, span.1),
        forall|i: int| 0 <= i < span.0 || span.1 <= i < s.len() ==> is_blank(s[i]),
        trim(s).len() > 0 ==> !is_blank(trim(s)[0]) && !is_blank(trim(s).last()),
{
    let from = lemma_trim_start_begins(s);
    let started = trim_start(s);
    let upto = lemma_trim_end_ends(started);
    assert(started.take(upto) =~= s.subrange(from, from + upto));
    assert forall|i: int| from + upto <= i < s.len() implies is_blank(s[i]) by {
        assert(s[i] == started[i - from]);
    }
    if trim(s).len() > 0 {
        assert(trim(s)[0] == started[0]);
        assert(trim(s).last() == started[upto - 1]);
    }
    (from, from + upto)
}

} // verus!
