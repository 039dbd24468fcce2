//! What generation reports when it fails. Every failure names the type; one that belongs to
//! a field names the field, and one about an action names the action as it was requested.

use vstd::prelude::*;
use vstd::string::*;

verus! {

/// Why no operations were generated for a type.
#[derive(Clone, Debug, PartialEq, Eq)]
pub enum GenerationError {
    /// The type is not a plain record of named fields.
    NotARecord { owner: String },
    /// An attribute of the field does not hold a list of action names.
    MalformedActionList { owner: String, field: String, text: String },
    /// The field requests an action that the catalog does not have.
    UnknownAction { owner: String, field: String, action: String },
}

/// The view of [`GenerationError`]: what it holds, with its texts as sequences of characters.
pub enum GenerationErrorView {
    NotARecord { owner: Seq<char> },
    MalformedActionList { owner: Seq<char>, field: Seq<char>, text: Seq<char> },
    UnknownAction { owner: Seq<char>, field: Seq<char>, action: Seq<char> },
}

impl View for GenerationError {
    type V = GenerationErrorView;

    open spec fn view(&self) -> GenerationErrorView {
        match self {
            GenerationError::NotARecord { owner } => GenerationErrorView::NotARecord {
                owner: owner@,
            },
            GenerationError::MalformedActionList {
                owner,
                field,
                text,
            } => GenerationErrorView::MalformedActionList {
                owner: owner@,
                field: field@,
                text: text@,
            },
            GenerationError::UnknownAction {
                owner,
                field,
                action,
            } => GenerationErrorView::UnknownAction {
                owner: owner@,
                field: field@,
                action: action@,
            },
        }
    }
}

/// Whether `needle` stands somewhere in `text`, character for character.
pub open spec fn holds_text(text: Seq<char>, needle: Seq<char>) -> bool {
    exists|at: int|
        0 <= at && at + needle.len() <= text.len() && #[trigger] text.subrange(
            at,
            at + needle.len(),
        ) == needle
}

impl GenerationErrorView {
    /// The type that the failure is about.
    pub open spec fn owner(self) -> Seq<char> {
        match self {
            GenerationErrorView::NotARecord { owner } => owner,
            GenerationErrorView::MalformedActionList { owner, .. } => owner,
            GenerationErrorView::UnknownAction { owner, .. } => owner,
        }
    }

    /// The diagnostic text of the failure.
    pub open spec fn message(self) -> Seq<char> {
        match self {
            GenerationErrorView::NotARecord { owner } =>
                "ImplThirtyfourActions can only be derived for structs with named fields, which "@
                    + owner + " is not"@,
            GenerationErrorView::MalformedActionList { owner, field, text } =>
                "Failed to parse thirtyfour_actions attribute of field "@ + field + " of "@
                    + owner + ": expected a list of action names, found '"@ + text + "'"@,
            GenerationErrorView::UnknownAction { owner, field, action } =>
                "Unsupported thirtyfour_actions method: '"@ + action + "' for field "@ + field
                    + " of "@ + owner,
        }
    }
}

impl GenerationError {
    /// The name of the type that the failure is about.
    pub fn owner(&self) -> (r: &String)
        ensures
            r@ == self@.owner(),
    {
        match self {
            GenerationError::NotARecord { owner } => owner,
            GenerationError::MalformedActionList { owner, .. } => owner,
            GenerationError::UnknownAction { owner, .. } => owner,
        }
    }

    /// The diagnostic text of the failure.
    pub fn message(&self) -> (r: String)
        ensures
            r@ == self@.message(),
    {
        match self {
            GenerationError::NotARecord { owner } => {
                let mut text = String::from_str(
                    "ImplThirtyfourActions can only be derived for structs with named fields, which ",
                );
                text.append(owner.as_str());
                text.append(" is not");
                text
            },
            GenerationError::MalformedActionList { owner, field, text: found } => {
                let mut text = String::from_str(
                    "Failed to parse thirtyfour_actions attribute of field ",
                );
                text.append(field.as_str());
                text.append(" of ");
                text.append(owner.as_str());
                text.append(": expected a list of action names, found '");
                text.append(found.as_str());
                text.append("'");
                text
            },
            GenerationError::UnknownAction { owner, field, action } => {
                let mut text = String::from_str("Unsupported thirtyfour_actions method: '");
                text.append(action.as_str());
                text.append("' for field ");
                text.append(field.as_str());
                text.append(" of ");
                text.append(owner.as_str());
                text
            },
        }
    }
}

/// A text holds each of the pieces that it is put together from.
pub proof fn lemma_holds_middle(before: Seq<char>, needle: Seq<char>, after: Seq<char>)
    ensures
        holds_text(before + needle + after, needle),
{
    let text = before + needle + after;
    let at = before.len() as int;
    assert(text.subrange(at, at + needle.len()) =~= needle);
}

/// The message of a failure names the type it is about, the field where it belongs to one,
/// and the action where it is about one.
pub proof fn lemma_message_names_its_subject(error: GenerationErrorView)
    ensures
        holds_text(error.message(), error.owner()),
        error matches GenerationErrorView::MalformedActionList { field, text, .. } ==> holds_text(
            error.message(),
            field,
        ) && holds_text(error.message(), text),
        error matches GenerationErrorView::UnknownAction { field, action, .. } ==> holds_text(
            error.message(),
            field,
        ) && holds_text(error.message(), action),
{
    let empty = Seq::<char>::empty();
    match error {
        GenerationErrorView::NotARecord { owner } => {
            lemma_holds_middle(
                "ImplThirtyfourActions can only be derived for structs with named fields, which "@,
                owner,
                " is not"@,
            );
        },
        GenerationErrorView::MalformedActionList { owner, field, text } => {
            let a = "Failed to parse thirtyfour_actions attribute of field "@;
            let b = " of "@;
            let c = ": expected a list of action names, found '"@;
            let d = "'"@;
            let whole = a + field + b + owner + c + text + d;
            lemma_holds_middle(a, field, b + owner + c + text + d);
            assert(a + field + (b + owner + c + text + d) =~= whole);
            lemma_holds_middle(a + field + b, owner, c + text + d);
            assert(a + field + b + owner + (c + text + d) =~= whole);
            lemma_holds_middle(a + field + b + owner + c, text, d);
        },
        GenerationErrorView::UnknownAction { owner, field, action } => {
            let a = "Unsupported thirtyfour_actions method: '"@;
            let b = "' for field "@;
            let c = " of "@;
            let whole = a + action + b + field + c + owner;
            lemma_holds_middle(a, action, b + field + c + owner);
            assert(a + action + (b + field + c + owner) =~= whole);
            lemma_holds_middle(a + action + b, field, c + owner);
            assert(a + action + b + field + (c + owner) =~= whole);
            lemma_holds_middle(a + action + b + field + c, owner, empty);
            assert(a + action + b + field + c + owner + empty =~= whole);
        },
    }
}

} // verus!
