//! The field descriptor extractor: from a field as it is declared to what generation needs
//! of it, which is its name, its locator and the names of the actions that it requests. The
//! actions are those of its `thirtyfour_actions` attributes, in the order in which they are
//! written; other attributes are passed over.

use crate::error::{GenerationError, GenerationErrorView};
use crate::model::{
    descriptor_views, texts, Attribute, AttributeView, FieldDeclaration, FieldDeclarationView,
    FieldDescriptor, FieldDescriptorView, PageObjectType, PageObjectTypeView, TypeDeclaration,
    TypeDeclarationView, TypeKind,
};
use crate::syntax::{spec_parse, ElementMethods};
use vstd::prelude::*;
use vstd::string::*;

verus! {

/// Whether the attribute is one that requests actions.
pub open spec fn requests_actions(attribute: AttributeView) -> bool {
    attribute.path == "thirtyfour_actions"@
}

/// The names of the actions that the attributes of the field `field` of the type `owner`
/// request, in the order in which they are written; the failure of the first attribute
/// that holds no action list otherwise.
pub open spec fn requested_names(
    owner: Seq<char>,
    field: Seq<char>,
    attributes: Seq<AttributeView>,
) -> Result<Seq<Seq<char>>, GenerationErrorView>
    decreases attributes.len(),
{
    if attributes.len() == 0 {
        Ok(Seq::empty())
    } else {
        match requested_names(owner, field, attributes.drop_last()) {
            Err(error) => Err(error),
            Ok(names) => if !requests_actions(attributes.last()) {
                Ok(names)
            } else {
                match spec_parse(attributes.last().arguments) {
                    Some(more) => Ok(names + more),
                    None => Err(
                        GenerationErrorView::MalformedActionList {
                            owner,
                            field,
                            text: attributes.last().arguments,
                        },
                    ),
                }
            },
        }
    }
}

/// The descriptor of a declared field of the type `owner`. A field without a name has none:
/// the type is then no record of named fields.
pub open spec fn spec_extract_field(owner: Seq<char>, field: FieldDeclarationView) -> Result<
    FieldDescriptorView,
    GenerationErrorView,
> {
    match field.name {
        None => Err(GenerationErrorView::NotARecord { owner }),
        Some(name) => match requested_names(owner, name, field.attributes) {
            Ok(actions) => Ok(FieldDescriptorView { name, locator: field.locator, actions }),
            Err(error) => Err(error),
        },
    }
}

/// The descriptors of the declared fields, in their order; the failure of the first field
/// that has none otherwise.
pub open spec fn extract_fields(owner: Seq<char>, fields: Seq<FieldDeclarationView>) -> Result<
    Seq<FieldDescriptorView>,
    GenerationErrorView,
>
    decreases fields.len(),
{
    if fields.len() == 0 {
        Ok(Seq::empty())
    } else {
        match extract_fields(owner, fields.drop_last()) {
            Err(error) => Err(error),
            Ok(descriptors) => match spec_extract_field(owner, fields.last()) {
                Ok(descriptor) => Ok(descriptors.push(descriptor)),
                Err(error) => Err(error),
            },
        }
    }
}

/// The description of the page object that a type declares. A type that is not a plain
/// record of named fields declares none.
pub open spec fn spec_extract(declaration: TypeDeclarationView) -> Result<
    PageObjectTypeView,
    GenerationErrorView,
> {
    if !declaration.is_record() {
        Err(GenerationErrorView::NotARecord { owner: declaration.name })
    } else {
        match extract_fields(declaration.name, declaration.fields) {
            Ok(fields) => Ok(PageObjectTypeView { name: declaration.name, fields }),
            Err(error) => Err(error),
        }
    }
}

/// A failure among the first `upto` attributes is the answer for all of them.
proof fn lemma_names_error_persists(
    owner: Seq<char>,
    field: Seq<char>,
    attributes: Seq<AttributeView>,
    upto: int,
)
    requires
        0 <= upto <= attributes.len(),
        requested_names(owner, field, attributes.take(upto)) is Err,
    ensures
        requested_names(owner, field, attributes) == requested_names(
            owner,
            field,
            attributes.take(upto),
        ),
    decreases attributes.len() - upto,
{
    if upto == attributes.len() {
        assert(attributes.take(upto) =~= attributes);
    } else {
        assert(attributes.take(upto + 1).drop_last() =~= attributes.take(upto));
        lemma_names_error_persists(owner, field, attributes, upto + 1);
    }
}

/// A failure among the first `upto` fields is the answer for all of them.
proof fn lemma_extract_error_persists(
    owner: Seq<char>,
    fields: Seq<FieldDeclarationView>,
    upto: int,
)
    requires
        0 <= upto <= fields.len(),
        extract_fields(owner, fields.take(upto)) is Err,
    ensures
        extract_fields(owner, fields) == extract_fields(owner, fields.take(upto)),
    decreases fields.len() - upto,
{
    if upto == fields.len() {
        assert(fields.take(upto) =~= fields);
    } else {
        assert(fields.take(upto + 1).drop_last() =~= fields.take(upto));
        lemma_extract_error_persists(owner, fields, upto + 1);
    }
}

/// Whether the attribute is one that requests actions.
pub fn is_action_attribute(attribute: &Attribute) -> (b: bool)
    ensures
        b == requests_actions(attribute@),
{
    let marker = String::from_str("thirtyfour_actions");
    attribute.path == marker
}

/// Draws the descriptor of one declared field of the type `owner`: its name, its locator
/// as it stands, and the names of the actions that its `thirtyfour_actions` attributes
/// request, in the order in which they are written. Fails where the field has no name, and
/// at the first such attribute whose arguments are no action list.
pub fn extract_field(owner: &str, field: &FieldDeclaration) -> (r: Result<
    FieldDescriptor,
    GenerationError,
>)
    ensures
        match r {
            Ok(descriptor) => spec_extract_field(owner@, field@) == Ok::<
                FieldDescriptorView,
                GenerationErrorView,
            >(descriptor@),
            Err(error) => spec_extract_field(owner@, field@) == Err::<
                FieldDescriptorView,
                GenerationErrorView,
            >(error@),
        },
{
    let name = match &field.name {
        None => {
            return Err(GenerationError::NotARecord { owner: String::from_str(owner) });
        },
        Some(name) => name,
    };
    let ghost attributes = field@.attributes;
    let mut actions: Vec<String> = Vec::new();
    let count: usize = field.attributes.len();
    let mut i: usize = 0;
    proof {
        assert(attributes.take(0) =~= Seq::<AttributeView>::empty());
        assert(texts(actions@) =~= Seq::<Seq<char>>::empty());
    }
    while i < count
        invariant
            i <= count,
            count == field.attributes.len(),
            attributes == field@.attributes,
            attributes.len() == count,
            field@.name == Some(name@),
            requested_names(owner@, name@, attributes.take(i as int)) == Ok::<
                Seq<Seq<char>>,
                GenerationErrorView,
            >(texts(actions@)),
        decreases count - i,
    {
        let attribute = &field.attributes[i];
        proof {
            assert(attributes.take(i + 1).drop_last() =~= attributes.take(i as int));
            assert(attributes.take(i + 1).last() == attribute@);
        }
        if is_action_attribute(attribute) {
            match ElementMethods::parse(attribute.arguments.as_str()) {
                None => {
                    proof {
                        lemma_names_error_persists(owner@, name@, attributes, i + 1);
                    }
                    return Err(
                        GenerationError::MalformedActionList {
                            owner: String::from_str(owner),
                            field: name.clone(),
                            text: attribute.arguments.clone(),
                        },
                    );
                },
                Some(parsed) => {
                    let ghost before = actions@;
                    let mut more = parsed.methods;
                    let ghost added = more@;
                    actions.append(&mut more);
                    proof {
                        assert(texts(actions@) =~= texts(before) + texts(added));
                    }
                },
            }
        }
        i += 1;
    }
    proof {
        assert(attributes.take(count as int) =~= attributes);
    }
    Ok(FieldDescriptor { name: name.clone(), locator: field.locator.clone(), actions })
}

/// Whether the declaration is a plain record of named fields.
pub fn is_record(declaration: &TypeDeclaration) -> (b: bool)
    ensures
        b == declaration@.is_record(),
{
    match declaration.kind {
        TypeKind::Struct => {},
        _ => {
            return false;
        },
    }
    let ghost fields = declaration@.fields;
    let mut i: usize = 0;
    while i < declaration.fields.len()
        invariant
            i <= declaration.fields.len(),
            fields == declaration@.fields,
            forall|j: int| 0 <= j < i ==> (#[trigger] fields[j]).name is Some,
        decreases declaration.fields.len() - i,
    {
        if declaration.fields[i].name.is_none() {
            assert(fields[i as int].name is None);
            return false;
        }
        assert(fields[i as int].name is Some);
        i += 1;
    }
    true
}

/// Draws the description of the page object that a type declares. Fails where the type is
/// not a plain record of named fields, and at the first attribute, in declaration order,
/// that requests actions and holds no action list.
pub fn extract(declaration: &TypeDeclaration) -> (r: Result<PageObjectType, GenerationError>)
    ensures
        match r {
            Ok(ty) => spec_extract(declaration@) == Ok::<PageObjectTypeView, GenerationErrorView>(
                ty@,
            ),
            Err(error) => spec_extract(declaration@) == Err::<
                PageObjectTypeView,
                GenerationErrorView,
            >(error@),
        },
{
    if !is_record(declaration) {
        return Err(GenerationError::NotARecord { owner: declaration.name.clone() });
    }
    let ghost declared = declaration@.fields;
    let mut fields: Vec<FieldDescriptor> = Vec::new();
    let count: usize = declaration.fields.len();
    let mut i: usize = 0;
    proof {
        assert(declared.take(0) =~= Seq::<FieldDeclarationView>::empty());
        assert(descriptor_views(fields@) =~= Seq::<FieldDescriptorView>::empty());
    }
    while i < count
        invariant
            i <= count,
            count == declaration.fields.len(),
            declared == declaration@.fields,
            declared.len() == count,
            declaration@.is_record(),
            extract_fields(declaration@.name, declared.take(i as int)) == Ok::<
                Seq<FieldDescriptorView>,
                GenerationErrorView,
            >(descriptor_views(fields@)),
        decreases count - i,
    {
        let field = &declaration.fields[i];
        proof {
            assert(declared.take(i + 1).drop_last() =~= declared.take(i as int));
            assert(declared.take(i + 1).last() == field@);
        }
        match extract_field(declaration.name.as_str(), field) {
            Err(error) => {
                proof {
                    lemma_extract_error_persists(declaration@.name, declared, i + 1);
                }
                return Err(error);
            },
            Ok(descriptor) => {
                let ghost before = fields@;
                fields.push(descriptor);
                proof {
                    assert(descriptor_views(fields@) =~= descriptor_views(before).push(
                        descriptor@,
                    ));
                }
            },
        }
        i += 1;
    }
    proof {
        assert(declared.take(count as int) =~= declared);
    }
    Ok(PageObjectType { name: declaration.name.clone(), fields })
}

} // verus!
