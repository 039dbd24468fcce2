//! The data that generation reads and writes: the declaration of a type as it is written
//! down, the description of a page object that is drawn from it, and the operations that are
//! generated for it. Each type has a view over sequences of characters, and the contracts of
//! the crate are stated over those views.

use crate::catalog::ActionRule;
use vstd::prelude::*;

verus! {

/// The texts of a run of strings, each as the sequence of its characters.
pub open spec fn texts(strings: Seq<String>) -> Seq<Seq<char>> {
    strings.map_values(|s: String| s@)
}

/// What kind of type a declaration declares.
#[derive(Clone, Copy, Debug, PartialEq, Eq, Hash, Structural)]
pub enum TypeKind {
    Struct,
    Enum,
    Union,
}

/// An attribute attached to a field: the path that names it and the text of its arguments.
#[derive(Clone, Debug, PartialEq, Eq)]
pub struct Attribute {
    pub path: String,
    pub arguments: String,
}

/// The view of [`Attribute`]: what it holds, with its texts as sequences of characters.
pub struct AttributeView {
    pub path: Seq<char>,
    pub arguments: Seq<char>,
}

impl View for Attribute {
    type V = AttributeView;

    open spec fn view(&self) -> AttributeView {
        AttributeView { path: self.path@, arguments: self.arguments@ }
    }
}

/// The views of a run of attributes.
pub open spec fn attribute_views(attributes: Seq<Attribute>) -> Seq<AttributeView> {
    attributes.map_values(|a: Attribute| a@)
}

/// A field as it is declared: its name, if it has one, the locator that it holds and its
/// attributes in the order in which they are written.
///
/// The locator is opaque: generation never looks inside it and hands it on as it is.
#[derive(Clone, Debug, PartialEq, Eq)]
pub struct FieldDeclaration {
    pub name: Option<String>,
    pub locator: String,
    pub attributes: Vec<Attribute>,
}

/// The view of [`FieldDeclaration`]: what it holds, with its texts as sequences of characters.
pub struct FieldDeclarationView {
    pub name: Option<Seq<char>>,
    pub locator: Seq<char>,
    pub attributes: Seq<AttributeView>,
}

impl View for FieldDeclaration {
    type V = FieldDeclarationView;

    open spec fn view(&self) -> FieldDeclarationView {
        FieldDeclarationView {
            name: match self.name {
                Some(name) => Some(name@),
                None => None,
            },
            locator: self.locator@,
            attributes: attribute_views(self.attributes@),
        }
    }
}

/// The views of a run of declared fields.
pub open spec fn declaration_views(fields: Seq<FieldDeclaration>) -> Seq<FieldDeclarationView> {
    fields.map_values(|f: FieldDeclaration| f@)
}

/// A type as it is declared: its name, its kind and its fields in declaration order.
#[derive(Clone, Debug, PartialEq, Eq)]
pub struct TypeDeclaration {
    pub name: String,
    pub kind: TypeKind,
    pub fields: Vec<FieldDeclaration>,
}

/// The view of [`TypeDeclaration`]: what it holds, with its texts as sequences of characters.
pub struct TypeDeclarationView {
    pub name: Seq<char>,
    pub kind: TypeKind,
    pub fields: Seq<FieldDeclarationView>,
}

impl View for TypeDeclaration {
    type V = TypeDeclarationView;

    open spec fn view(&self) -> TypeDeclarationView {
        TypeDeclarationView {
            name: self.name@,
            kind: self.kind,
            fields: declaration_views(self.fields@),
        }
    }
}

impl TypeDeclarationView {
    /// Whether the declaration is a plain record of named fields: a struct all of whose
    /// fields bear a name.
    pub open spec fn is_record(self) -> bool {
        self.kind == TypeKind::Struct && forall|i: int|
            0 <= i < self.fields.len() ==> (#[trigger] self.fields[i]).name is Some
    }
}

/// One field of a page object: its name, the locator that it holds and the names of the
/// actions that it requests, in the order in which it requests them.
#[derive(Clone, Debug, PartialEq, Eq)]
pub struct FieldDescriptor {
    pub name: String,
    pub locator: String,
    pub actions: Vec<String>,
}

/// The view of [`FieldDescriptor`]: what it holds, with its texts as sequences of characters.
pub struct FieldDescriptorView {
    pub name: Seq<char>,
    pub locator: Seq<char>,
    pub actions: Seq<Seq<char>>,
}

impl View for FieldDescriptor {
    type V = FieldDescriptorView;

    open spec fn view(&self) -> FieldDescriptorView {
        FieldDescriptorView {
            name: self.name@,
            locator: self.locator@,
            actions: texts(self.actions@),
        }
    }
}

/// The views of a run of descriptors.
pub open spec fn descriptor_views(fields: Seq<FieldDescriptor>) -> Seq<FieldDescriptorView> {
    fields.map_values(|f: FieldDescriptor| f@)
}

/// The description of a page object: the name of the type and its fields in declaration
/// order.
#[derive(Clone, Debug, PartialEq, Eq)]
pub struct PageObjectType {
    pub name: String,
    pub fields: Vec<FieldDescriptor>,
}

/// The view of [`PageObjectType`]: what it holds, with its texts as sequences of characters.
pub struct PageObjectTypeView {
    pub name: Seq<char>,
    pub fields: Seq<FieldDescriptorView>,
}

impl View for PageObjectType {
    type V = PageObjectTypeView;

    open spec fn view(&self) -> PageObjectTypeView {
        PageObjectTypeView {
            name: self.name@,
            fields: descriptor_views(self.fields@),
        }
    }
}

/// Whether no two of the fields bear the same name.
pub open spec fn distinct_names(fields: Seq<FieldDescriptorView>) -> bool {
    forall|i: int, j: int|
        0 <= i < j < fields.len() ==> (#[trigger] fields[i]).name != (#[trigger] fields[j]).name
}

impl PageObjectTypeView {
    /// Whether the description is valid: no two fields bear the same name.
    pub open spec fn wf(self) -> bool {
        distinct_names(self.fields)
    }
}

/// The definition of one generated operation: its name, the field it belongs to, the
/// locator it hands to the driver and the rule it was generated by, which says what it
/// takes, what it yields and when it fails.
#[derive(Clone, Debug, PartialEq, Eq)]
pub struct GeneratedOperation {
    pub name: String,
    pub field: String,
    pub locator: String,
    pub rule: ActionRule,
}

/// The view of [`GeneratedOperation`]: what it holds, with its texts as sequences of characters.
pub struct GeneratedOperationView {
    pub name: Seq<char>,
    pub field: Seq<char>,
    pub locator: Seq<char>,
    pub rule: ActionRule,
}

impl View for GeneratedOperation {
    type V = GeneratedOperationView;

    open spec fn view(&self) -> GeneratedOperationView {
        GeneratedOperationView {
            name: self.name@,
            field: self.field@,
            locator: self.locator@,
            rule: self.rule,
        }
    }
}

impl GeneratedOperationView {
    /// Whether the operation is as generation makes it: its rule is the catalog's rule for
    /// its action, and its name is made of that action and the name of its field.
    pub open spec fn wf(self) -> bool {
        &&& self.rule == self.rule.action.spec_rule()
        &&& self.name == self.rule.action.spec_method_name(self.field)
    }
}

/// The views of a run of operations.
pub open spec fn operation_views(operations: Seq<GeneratedOperation>) -> Seq<
    GeneratedOperationView,
> {
    operations.map_values(|o: GeneratedOperation| o@)
}

/// The operations generated for one type, in the order in which they are generated: field
/// by field, and for each field the base operation before the requested ones.
#[derive(Clone, Debug, PartialEq, Eq)]
pub struct GeneratedMethodSet {
    pub owner: String,
    pub operations: Vec<GeneratedOperation>,
}

/// The view of [`GeneratedMethodSet`]: what it holds, with its texts as sequences of characters.
pub struct GeneratedMethodSetView {
    pub owner: Seq<char>,
    pub operations: Seq<GeneratedOperationView>,
}

impl GeneratedMethodSetView {
    /// Whether the set is as generation makes it: every operation is, and no two bear the
    /// same name.
    pub open spec fn wf(self) -> bool {
        &&& forall|k: int| 0 <= k < self.operations.len() ==> (#[trigger] self.operations[k]).wf()
        &&& forall|j: int, k: int|
            0 <= j < k < self.operations.len() ==> (#[trigger] self.operations[j]).name != (
            #[trigger] self.operations[k]).name
    }
}

impl View for GeneratedMethodSet {
    type V = GeneratedMethodSetView;

    open spec fn view(&self) -> GeneratedMethodSetView {
        GeneratedMethodSetView {
            owner: self.owner@,
            operations: operation_views(self.operations@),
        }
    }
}

} // verus!
