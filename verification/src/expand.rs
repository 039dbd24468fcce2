//! Generation as a whole: from a type as it is declared to the operations generated for it.
//! The declaration is gone through once, field by field; for each field its descriptor is
//! drawn and its operations are generated before the next field is looked at. The first
//! failure ends generation, and nothing is generated then.

use crate::error::{GenerationError, GenerationErrorView};
use crate::extract::{
    extract_field, extract_fields, is_record, spec_extract, spec_extract_field,
};
use crate::model::{
    operation_views, FieldDeclarationView, GeneratedMethodSet, GeneratedMethodSetView,
    GeneratedOperation, GeneratedOperationView, TypeDeclaration, TypeDeclarationView,
};
use crate::synthesize::{field_operations, fields_operations, spec_synthesize, synthesize_field};
use vstd::prelude::*;
use vstd::string::*;

verus! {

/// What is generated for one declared field of the type `owner`.
pub open spec fn declared_field_operations(owner: Seq<char>, field: FieldDeclarationView) -> Result<
    Seq<GeneratedOperationView>,
    GenerationErrorView,
> {
    match spec_extract_field(owner, field) {
        Ok(descriptor) => field_operations(owner, descriptor),
        Err(error) => Err(error),
    }
}

/// What is generated for the declared fields of the type `owner`: the operations of all
/// fields, one field after the other; the failure of the first field that fails otherwise.
pub open spec fn declared_operations(owner: Seq<char>, fields: Seq<FieldDeclarationView>) -> Result<
    Seq<GeneratedOperationView>,
    GenerationErrorView,
>
    decreases fields.len(),
{
    if fields.len() == 0 {
        Ok(Seq::empty())
    } else {
        match declared_operations(owner, fields.drop_last()) {
            Err(error) => Err(error),
            Ok(operations) => match declared_field_operations(owner, fields.last()) {
                Ok(more) => Ok(operations + more),
                Err(error) => Err(error),
            },
        }
    }
}

/// What is generated for a declared type.
pub open spec fn spec_impl_thirtyfour_actions(input: TypeDeclarationView) -> Result<
    GeneratedMethodSetView,
    GenerationErrorView,
> {
    if !input.is_record() {
        Err(GenerationErrorView::NotARecord { owner: input.name })
    } else {
        match declared_operations(input.name, input.fields) {
            Ok(operations) => Ok(GeneratedMethodSetView { owner: input.name, operations }),
            Err(error) => Err(error),
        }
    }
}

/// A failure among the first `upto` declared fields is the answer for all of them.
proof fn lemma_declared_error_persists(
    owner: Seq<char>,
    fields: Seq<FieldDeclarationView>,
    upto: int,
)
    requires
        0 <= upto <= fields.len(),
        declared_operations(owner, fields.take(upto)) is Err,
    ensures
        declared_operations(owner, fields) == declared_operations(owner, fields.take(upto)),
    decreases fields.len() - upto,
{
    if upto == fields.len() {
        assert(fields.take(upto) =~= fields);
    } else {
        assert(fields.take(upto + 1).drop_last() =~= fields.take(upto));
        lemma_declared_error_persists(owner, fields, upto + 1);
    }
}

/// Generates the operations of a declared type.
///
/// A type that is not a plain record of named fields gets none: the failure names the
/// type. Otherwise the fields are gone through in declaration order. Each gets its base
/// operation and one operation for each action that its `thirtyfour_actions` attributes
/// request, in the order in which they first request it. Generation fails, with nothing
/// generated for the type, at the first field with such an attribute that holds no action
/// list, or that requests an action which the catalog does not have.
pub fn impl_thirtyfour_actions(input: &TypeDeclaration) -> (r: Result<
    GeneratedMethodSet,
    GenerationError,
>)
    ensures
        match r {
            Ok(set) => spec_impl_thirtyfour_actions(input@) == Ok::<
                GeneratedMethodSetView,
                GenerationErrorView,
            >(set@),
            Err(error) => spec_impl_thirtyfour_actions(input@) == Err::<
                GeneratedMethodSetView,
                GenerationErrorView,
            >(error@),
        },
{
    if !is_record(input) {
        return Err(GenerationError::NotARecord { owner: input.name.clone() });
    }
    let ghost declared = input@.fields;
    let mut operations: Vec<GeneratedOperation> = Vec::new();
    let count: usize = input.fields.len();
    let mut i: usize = 0;
    proof {
        assert(declared.take(0) =~= Seq::<FieldDeclarationView>::empty());
        assert(operation_views(operations@) =~= Seq::<GeneratedOperationView>::empty());
    }
    while i < count
        invariant
            i <= count,
            count == input.fields.len(),
            declared == input@.fields,
            declared.len() == count,
            input@.is_record(),
            declared_operations(input@.name, declared.take(i as int)) == Ok::<
                Seq<GeneratedOperationView>,
                GenerationErrorView,
            >(operation_views(operations@)),
        decreases count - i,
    {
        let field = &input.fields[i];
        proof {
            assert(declared.take(i + 1).drop_last() =~= declared.take(i as int));
            assert(declared.take(i + 1).last() == field@);
        }
        let descriptor = match extract_field(input.name.as_str(), field) {
            Err(error) => {
                proof {
                    lemma_declared_error_persists(input@.name, declared, i + 1);
                }
                return Err(error);
            },
            Ok(descriptor) => descriptor,
        };
        match synthesize_field(input.name.as_str(), &descriptor) {
            Err(error) => {
                proof {
                    lemma_declared_error_persists(input@.name, declared, i + 1);
                }
                return Err(error);
            },
            Ok(more) => {
                let ghost before = operations@;
                let mut more = more;
                let ghost added = more@;
                operations.append(&mut more);
                proof {
                    assert(operation_views(operations@) =~= operation_views(before)
                        + operation_views(added));
                }
            },
        }
        i += 1;
    }
    proof {
        assert(declared.take(count as int) =~= declared);
    }
    Ok(GeneratedMethodSet { owner: input.name.clone(), operations })
}

/// Generation goes by the description: where a declaration has a description, what is
/// generated for the declaration is what is generated for the description; where it has
/// none, nothing is generated.
pub proof fn lemma_generation_goes_by_description(input: TypeDeclarationView)
    ensures
        match spec_extract(input) {
            Ok(ty) => spec_impl_thirtyfour_actions(input) == spec_synthesize(ty),
            Err(_) => spec_impl_thirtyfour_actions(input) is Err,
        },
{
    if input.is_record() {
        lemma_declared_goes_by_descriptors(input.name, input.fields);
    }
}

/// The same of the fields alone.
proof fn lemma_declared_goes_by_descriptors(owner: Seq<char>, fields: Seq<FieldDeclarationView>)
    ensures
        match extract_fields(owner, fields) {
            Ok(descriptors) => declared_operations(owner, fields) == fields_operations(
                owner,
                descriptors,
            ),
            Err(_) => declared_operations(owner, fields) is Err,
        },
    decreases fields.len(),
{
    if fields.len() > 0 {
        lemma_declared_goes_by_descriptors(owner, fields.drop_last());
        match extract_fields(owner, fields.drop_last()) {
            Ok(descriptors) => {
                match spec_extract_field(owner, fields.last()) {
                    Ok(descriptor) => {
                        assert(descriptors.push(descriptor).drop_last() =~= descriptors);
                    },
                    Err(_) => {},
                }
            },
            Err(_) => {},
        }
    }
}

} // verus!
