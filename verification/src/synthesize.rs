//! The method synthesizer: from the description of a page object to the operations that are
//! generated for it. For each field, in declaration order, the base operation comes first
//! and then one operation for each action that the field requests, in the order in which it
//! first requests it. A name that the catalog does not have fails the whole type.

use crate::catalog::{action_named, spec_action_named, Action};
use crate::error::{GenerationError, GenerationErrorView};
use crate::model::{
    operation_views, FieldDescriptor, FieldDescriptorView, GeneratedMethodSet, GeneratedMethodSetView,
    GeneratedOperation, GeneratedOperationView, PageObjectType, PageObjectTypeView,
};
use vstd::prelude::*;
use vstd::string::*;

verus! {

/// The items of `s` without repetitions, each where it first occurs.
pub open spec fn distinct<A>(s: Seq<A>) -> Seq<A>
    decreases s.len(),
{
    if s.len() == 0 {
        Seq::empty()
    } else {
        let before = distinct(s.drop_last());
        if before.contains(s.last()) {
            before
        } else {
            before.push(s.last())
        }
    }
}

/// The actions that the names request, one for each name and in their order, where the
/// catalog has every one of them; the first name that it does not have otherwise.
pub open spec fn resolve(names: Seq<Seq<char>>) -> Result<Seq<Action>, Seq<char>>
    decreases names.len(),
{
    if names.len() == 0 {
        Ok(Seq::empty())
    } else {
        match resolve(names.drop_last()) {
            Err(name) => Err(name),
            Ok(actions) => match spec_action_named(names.last()) {
                Some(action) => Ok(actions.push(action)),
                None => Err(names.last()),
            },
        }
    }
}

/// The operation that `action` generates for `field`.
pub open spec fn operation_for(action: Action, field: FieldDescriptorView) -> GeneratedOperationView {
    GeneratedOperationView {
        name: action.spec_method_name(field.name),
        field: field.name,
        locator: field.locator,
        rule: action.spec_rule(),
    }
}

/// The operations that `actions` generate for `field`, in their order.
pub open spec fn operations_for(actions: Seq<Action>, field: FieldDescriptorView) -> Seq<
    GeneratedOperationView,
> {
    actions.map_values(|action: Action| operation_for(action, field))
}

/// The actions for which a field that requests `requested` gets an operation: the base
/// operation, then each requested action once.
pub open spec fn plan(requested: Seq<Action>) -> Seq<Action> {
    seq![Action::Locate] + distinct(requested)
}

/// What is generated for one field of the type `owner`.
pub open spec fn field_operations(owner: Seq<char>, field: FieldDescriptorView) -> Result<
    Seq<GeneratedOperationView>,
    GenerationErrorView,
> {
    match resolve(field.actions) {
        Ok(requested) => Ok(operations_for(plan(requested), field)),
        Err(name) => Err(
            GenerationErrorView::UnknownAction { owner, field: field.name, action: name },
        ),
    }
}

/// What is generated for the fields of the type `owner`: the operations of all fields, one
/// field after the other, where every field has its operations generated; the failure of
/// the first field that has not otherwise.
pub open spec fn fields_operations(owner: Seq<char>, fields: Seq<FieldDescriptorView>) -> Result<
    Seq<GeneratedOperationView>,
    GenerationErrorView,
>
    decreases fields.len(),
{
    if fields.len() == 0 {
        Ok(Seq::empty())
    } else {
        match fields_operations(owner, fields.drop_last()) {
            Err(error) => Err(error),
            Ok(operations) => match field_operations(owner, fields.last()) {
                Ok(more) => Ok(operations + more),
                Err(error) => Err(error),
            },
        }
    }
}

/// What is generated for a page object.
pub open spec fn spec_synthesize(ty: PageObjectTypeView) -> Result<
    GeneratedMethodSetView,
    GenerationErrorView,
> {
    match fields_operations(ty.name, ty.fields) {
        Ok(operations) => Ok(GeneratedMethodSetView { owner: ty.name, operations }),
        Err(error) => Err(error),
    }
}

/// A name that the catalog lacks among the first `upto` names is the answer for all of them.
proof fn lemma_resolve_error_persists(names: Seq<Seq<char>>, upto: int)
    requires
        0 <= upto <= names.len(),
        resolve(names.take(upto)) is Err,
    ensures
        resolve(names) == resolve(names.take(upto)),
    decreases names.len() - upto,
{
    if upto == names.len() {
        assert(names.take(upto) =~= names);
    } else {
        assert(names.take(upto + 1).drop_last() =~= names.take(upto));
        lemma_resolve_error_persists(names, upto + 1);
    }
}

/// A failure among the first `upto` fields is the answer for all of them.
proof fn lemma_fields_error_persists(
    owner: Seq<char>,
    fields: Seq<FieldDescriptorView>,
    upto: int,
)
    requires
        0 <= upto <= fields.len(),
        fields_operations(owner, fields.take(upto)) is Err,
    ensures
        fields_operations(owner, fields) == fields_operations(owner, fields.take(upto)),
    decreases fields.len() - upto,
{
    if upto == fields.len() {
        assert(fields.take(upto) =~= fields);
    } else {
        assert(fields.take(upto + 1).drop_last() =~= fields.take(upto));
        lemma_fields_error_persists(owner, fields, upto + 1);
    }
}

fn has_action(actions: &Vec<Action>, action: Action) -> (b: bool)
    ensures
        b == actions@.contains(action),
{
    let mut i: usize = 0;
    while i < actions.len()
        invariant
            i <= actions.len(),
            forall|j: int| 0 <= j < i ==> actions@[j] != action,
        decreases actions.len() - i,
    {
        if actions[i] == action {
            return true;
        }
        i += 1;
    }
    false
}

/// The operation that `action` generates for `field`.
pub fn operation(action: Action, field: &FieldDescriptor) -> (r: GeneratedOperation)
    ensures
        r@ == operation_for(action, field@),
{
    GeneratedOperation {
        name: action.method_name(field.name.as_str()),
        field: field.name.clone(),
        locator: field.locator.clone(),
        rule: action.rule(),
    }
}

/// Generates the operations of one field of the type `owner`: the base operation, then one
/// operation for each action that the field requests, in the order in which it first
/// requests it. Fails, with nothing generated, at the first name that the catalog lacks.
pub fn synthesize_field(owner: &str, field: &FieldDescriptor) -> (r: Result<
    Vec<GeneratedOperation>,
    GenerationError,
>)
    ensures
        match r {
            Ok(operations) => field_operations(owner@, field@) == Ok::<
                Seq<GeneratedOperationView>,
                GenerationErrorView,
            >(operation_views(operations@)),
            Err(error) => field_operations(owner@, field@) == Err::<
                Seq<GeneratedOperationView>,
                GenerationErrorView,
            >(error@),
        },
{
    let ghost names = field@.actions;
    let mut chosen: Vec<Action> = Vec::new();
    chosen.push(Action::Locate);
    let mut operations: Vec<GeneratedOperation> = Vec::new();
    operations.push(operation(Action::Locate, field));
    let count: usize = field.actions.len();
    let mut i: usize = 0;
    proof {
        assert(names.take(0) =~= Seq::<Seq<char>>::empty());
        assert(chosen@ =~= plan(Seq::<Action>::empty()));
        assert(operation_views(operations@) =~= operations_for(chosen@, field@));
    }
    while i < count
        invariant
            i <= count,
            count == field.actions.len(),
            names == field@.actions,
            names.len() == count,
            resolve(names.take(i as int)) is Ok,
            chosen@ == plan(resolve(names.take(i as int))->Ok_0),
            operation_views(operations@) == operations_for(chosen@, field@),
        decreases count - i,
    {
        let name = &field.actions[i];
        let ghost before = resolve(names.take(i as int))->Ok_0;
        proof {
            assert(names.take(i + 1).drop_last() =~= names.take(i as int));
            assert(names.take(i + 1).last() == name@);
        }
        match action_named(name.as_str()) {
            None => {
                proof {
                    lemma_resolve_error_persists(names, i + 1);
                }
                return Err(
                    GenerationError::UnknownAction {
                        owner: String::from_str(owner),
                        field: field.name.clone(),
                        action: name.clone(),
                    },
                );
            },
            Some(action) => {
                proof {
                    let after = before.push(action);
                    assert(after.drop_last() =~= before);
                    assert(after.last() == action);
                    assert(chosen@.contains(action) <==> distinct(before).contains(action)) by {
                        if distinct(before).contains(action) {
                            let k = choose|k: int|
                                0 <= k < distinct(before).len() && distinct(before)[k]
                                    == action;
                            assert(chosen@[k + 1] == action);
                        }
                    }
                }
                if !has_action(&chosen, action) {
                    let ghost chosen_before = chosen@;
                    let ghost operations_before = operations@;
                    chosen.push(action);
                    operations.push(operation(action, field));
                    proof {
                        assert(chosen@ =~= plan(before.push(action)));
                        assert(operation_views(operations@) =~= operation_views(
                            operations_before,
                        ).push(operation_for(action, field@)));
                        assert(operations_for(chosen@, field@) =~= operations_for(
                            chosen_before,
                            field@,
                        ).push(operation_for(action, field@)));
                    }
                }
            },
        }
        i += 1;
    }
    proof {
        assert(names.take(count as int) =~= names);
    }
    Ok(operations)
}

/// Generates the operations of a page object: those of its fields, one field after the
/// other in declaration order. Fails, with nothing generated, where a field requests an
/// action that the catalog does not have; the failure is that of the first such field and
/// names its first such action.
pub fn synthesize(ty: &PageObjectType) -> (r: Result<GeneratedMethodSet, GenerationError>)
    ensures
        match r {
            Ok(set) => spec_synthesize(ty@) == Ok::<GeneratedMethodSetView, GenerationErrorView>(
                set@,
            ),
            Err(error) => spec_synthesize(ty@) == Err::<
                GeneratedMethodSetView,
                GenerationErrorView,
            >(error@),
        },
{
    let ghost fields = ty@.fields;
    let mut operations: Vec<GeneratedOperation> = Vec::new();
    let count: usize = ty.fields.len();
    let mut i: usize = 0;
    proof {
        assert(fields.take(0) =~= Seq::<FieldDescriptorView>::empty());
        assert(operation_views(operations@) =~= Seq::<GeneratedOperationView>::empty());
    }
    while i < count
        invariant
            i <= count,
            count == ty.fields.len(),
            fields == ty@.fields,
            fields.len() == count,
            fields_operations(ty@.name, fields.take(i as int)) == Ok::<
                Seq<GeneratedOperationView>,
                GenerationErrorView,
            >(operation_views(operations@)),
        decreases count - i,
    {
        let field = &ty.fields[i];
        proof {
            assert(fields.take(i + 1).drop_last() =~= fields.take(i as int));
            assert(fields.take(i + 1).last() == field@);
        }
        match synthesize_field(ty.name.as_str(), field) {
            Err(error) => {
                proof {
                    lemma_fields_error_persists(ty@.name, fields, i + 1);
                }
                return Err(error);
            },
            Ok(more) => {
                let ghost before = operations@;
                let mut more = more;
                let ghost added = more@;
                operations.append(&mut more);
                proof {
                    assert(operation_views(operations@) =~= operation_views(before)
                        + operation_views(added));
                }
            },
        }
        i += 1;
    }
    proof {
        assert(fields.take(count as int) =~= fields);
    }
    Ok(GeneratedMethodSet { owner: ty.name.clone(), operations })
}

} // verus!
