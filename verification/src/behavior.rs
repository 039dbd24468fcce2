//! What the generated operations do when they run, as a function from what the driver
//! answered to what the operation does next. An operation asks the driver for one thing at
//! a time and goes on with the reply; nothing here talks to a driver. Whoever runs an
//! operation performs each request, on a session that it owns, and hands the reply back.
//!
//! An operation that works on an element first finds it through the base operation of its
//! field. Where that finds none, the operation fails with `<field> not found`, whatever it
//! was about to do; where the driver rejects the call that the operation wraps, it fails
//! with a message that names the field, says what was attempted and ends with the driver's
//! own words. The base operation and the existence check never fail: a driver error counts
//! as an absent element and as `false`.

use crate::catalog::{Acquisition, Action, DriverCall, ResultKind};
use crate::model::{GeneratedOperation, GeneratedOperationView};
use crate::text::{contains_word, decimal, has_word, spec_decimal};
use vstd::prelude::*;
use vstd::string::*;

verus! {

/// The handle of an element, as the one who runs the operations numbers them. Nothing here
/// looks inside it.
#[derive(Clone, Copy, Debug, PartialEq, Eq, Hash, Structural)]
pub struct ElementHandle {
    pub id: u64,
}

/// The value handed to a generated operation for its extra parameter.
#[derive(Clone, Debug, PartialEq, Eq)]
pub enum Argument {
    Nothing,
    Text(String),
    Index(usize),
    Seconds(u64),
    Element(ElementHandle),
}

/// The view of [`Argument`]: what it holds, with its texts as sequences of characters.
pub enum ArgumentView {
    Nothing,
    Text(Seq<char>),
    Index(usize),
    Seconds(u64),
    Element(ElementHandle),
}

impl View for Argument {
    type V = ArgumentView;

    open spec fn view(&self) -> ArgumentView {
        match self {
            Argument::Nothing => ArgumentView::Nothing,
            Argument::Text(text) => ArgumentView::Text(text@),
            Argument::Index(index) => ArgumentView::Index(*index),
            Argument::Seconds(seconds) => ArgumentView::Seconds(*seconds),
            Argument::Element(element) => ArgumentView::Element(*element),
        }
    }
}

/// A value that the driver answers with, or that an operation returns.
#[derive(Clone, Debug, PartialEq, Eq)]
pub enum Value {
    Marker,
    Text(String),
    OptionalText(Option<String>),
    Flag(bool),
    Element(ElementHandle),
    OptionalElement(Option<ElementHandle>),
    Image(String),
}

/// The view of [`Value`]: what it holds, with its texts as sequences of characters.
pub enum ValueView {
    Marker,
    Text(Seq<char>),
    OptionalText(Option<Seq<char>>),
    Flag(bool),
    Element(ElementHandle),
    OptionalElement(Option<ElementHandle>),
    Image(Seq<char>),
}

impl View for Value {
    type V = ValueView;

    open spec fn view(&self) -> ValueView {
        match self {
            Value::Marker => ValueView::Marker,
            Value::Text(text) => ValueView::Text(text@),
            Value::OptionalText(text) => ValueView::OptionalText(
                match text {
                    Some(text) => Some(text@),
                    None => None,
                },
            ),
            Value::Flag(flag) => ValueView::Flag(*flag),
            Value::Element(element) => ValueView::Element(*element),
            Value::OptionalElement(element) => ValueView::OptionalElement(*element),
            Value::Image(image) => ValueView::Image(image@),
        }
    }
}

impl ValueView {
    /// The kind of the value.
    pub open spec fn kind(self) -> ResultKind {
        match self {
            ValueView::Marker => ResultKind::Marker,
            ValueView::Text(_) => ResultKind::Text,
            ValueView::OptionalText(_) => ResultKind::OptionalText,
            ValueView::Flag(_) => ResultKind::Flag,
            ValueView::Element(_) => ResultKind::Element,
            ValueView::OptionalElement(_) => ResultKind::OptionalElement,
            ValueView::Image(_) => ResultKind::Image,
        }
    }
}

impl Value {
    /// The kind of the value.
    pub fn kind(&self) -> (k: ResultKind)
        ensures
            k == self@.kind(),
    {
        match self {
            Value::Marker => ResultKind::Marker,
            Value::Text(_) => ResultKind::Text,
            Value::OptionalText(_) => ResultKind::OptionalText,
            Value::Flag(_) => ResultKind::Flag,
            Value::Element(_) => ResultKind::Element,
            Value::OptionalElement(_) => ResultKind::OptionalElement,
            Value::Image(_) => ResultKind::Image,
        }
    }
}

/// What the driver answered to a request: a value, or the words with which it rejected
/// the call.
#[derive(Clone, Debug, PartialEq, Eq)]
pub enum Reply {
    Answered(Value),
    Rejected(String),
}

/// The view of [`Reply`]: what it holds, with its texts as sequences of characters.
pub enum ReplyView {
    Answered(ValueView),
    Rejected(Seq<char>),
}

impl View for Reply {
    type V = ReplyView;

    open spec fn view(&self) -> ReplyView {
        match self {
            Reply::Answered(value) => ReplyView::Answered(value@),
            Reply::Rejected(words) => ReplyView::Rejected(words@),
        }
    }
}

/// How an operation ends: with the value that it returns, or with the message of its
/// failure.
#[derive(Clone, Debug, PartialEq, Eq)]
pub enum Outcome {
    Returned(Value),
    Failed(String),
}

/// The view of [`Outcome`]: what it holds, with its texts as sequences of characters.
pub enum OutcomeView {
    Returned(ValueView),
    Failed(Seq<char>),
}

impl View for Outcome {
    type V = OutcomeView;

    open spec fn view(&self) -> OutcomeView {
        match self {
            Outcome::Returned(value) => OutcomeView::Returned(value@),
            Outcome::Failed(message) => OutcomeView::Failed(message@),
        }
    }
}

/// How far an operation has come.
#[derive(Clone, Copy, Debug, PartialEq, Eq, Hash, Structural)]
pub enum Stage {
    /// It has asked for its element, or for what it reports of the locator.
    Acquiring,
    /// It has made the call that it wraps, on `element`.
    Calling { element: ElementHandle },
    /// It has made a second call, on the `element` that the first one yielded.
    FollowingUp { element: ElementHandle },
}

/// What an operation asks of the driver.
#[derive(Clone, Debug, PartialEq, Eq)]
pub enum Request {
    /// A call on the session, with the locator of the field.
    Query { call: DriverCall, locator: String, argument: Argument },
    /// A call on an element.
    Element { call: DriverCall, element: ElementHandle, argument: Argument },
}

/// The view of [`Request`]: what it holds, with its texts as sequences of characters.
pub enum RequestView {
    Query { call: DriverCall, locator: Seq<char>, argument: ArgumentView },
    Element { call: DriverCall, element: ElementHandle, argument: ArgumentView },
}

impl View for Request {
    type V = RequestView;

    open spec fn view(&self) -> RequestView {
        match self {
            Request::Query { call, locator, argument } => RequestView::Query {
                call: *call,
                locator: locator@,
                argument: argument@,
            },
            Request::Element { call, element, argument } => RequestView::Element {
                call: *call,
                element: *element,
                argument: argument@,
            },
        }
    }
}

impl RequestView {
    /// The driver call that is asked for.
    pub open spec fn call(self) -> DriverCall {
        match self {
            RequestView::Query { call, .. } => call,
            RequestView::Element { call, .. } => call,
        }
    }
}

/// What an operation does next: it asks the driver for something and goes on at `stage`
/// with the reply, or it is done.
#[derive(Clone, Debug, PartialEq, Eq)]
pub enum Progress {
    Ask { stage: Stage, request: Request },
    Done(Outcome),
}

/// The view of [`Progress`]: what it holds, with its texts as sequences of characters.
pub enum ProgressView {
    Ask { stage: Stage, request: RequestView },
    Done(OutcomeView),
}

impl View for Progress {
    type V = ProgressView;

    open spec fn view(&self) -> ProgressView {
        match self {
            Progress::Ask { stage, request } => ProgressView::Ask {
                stage: *stage,
                request: request@,
            },
            Progress::Done(outcome) => ProgressView::Done(outcome@),
        }
    }
}

impl DriverCall {
    /// The kind of value that the driver answers this call with.
    pub open spec fn spec_yields(self) -> ResultKind {
        match self {
            DriverCall::FindFirst => ResultKind::OptionalElement,
            DriverCall::Text | DriverCall::CssValue => ResultKind::Text,
            DriverCall::Attribute => ResultKind::OptionalText,
            DriverCall::IsDisplayed | DriverCall::IsSelected | DriverCall::IsEnabled
            | DriverCall::Exists => ResultKind::Flag,
            DriverCall::FirstSelectedOption | DriverCall::WaitVisible => ResultKind::Element,
            DriverCall::ScreenshotBase64 => ResultKind::Image,
            _ => ResultKind::Marker,
        }
    }

    /// The kind of value that the driver answers this call with.
    #[verifier::when_used_as_spec(spec_yields)]
    pub fn yields(self) -> (k: ResultKind)
        ensures
            k == self.spec_yields(),
    {
        match self {
            DriverCall::FindFirst => ResultKind::OptionalElement,
            DriverCall::Text | DriverCall::CssValue => ResultKind::Text,
            DriverCall::Attribute => ResultKind::OptionalText,
            DriverCall::IsDisplayed | DriverCall::IsSelected | DriverCall::IsEnabled
            | DriverCall::Exists => ResultKind::Flag,
            DriverCall::FirstSelectedOption | DriverCall::WaitVisible => ResultKind::Element,
            DriverCall::ScreenshotBase64 => ResultKind::Image,
            _ => ResultKind::Marker,
        }
    }
}

/// How the words about a rejected call begin, for the call that `action` wraps. For the
/// base operation and the existence check, which do not fail, they are the words that go
/// to the log.
pub open spec fn spec_failure_head(action: Action) -> Seq<char> {
    match action {
        Action::Locate => "Error querying element "@,
        Action::Click => "Failed to click "@,
        Action::DoubleClick => "Failed to double-click "@,
        Action::RightClick => "Failed to right-click "@,
        Action::EnterKeys => "Failed to send keys to "@,
        Action::Clear => "Failed to clear "@,
        Action::Submit => "Failed to submit form "@,
        Action::Hover => "Failed to hover over "@,
        Action::DragTo => "Failed to drag "@,
        Action::GetText => "Failed to get text from "@,
        Action::GetAttribute => "Failed to get attribute '"@,
        Action::GetValue => "Failed to get value from "@,
        Action::GetCssValue => "Failed to get CSS property '"@,
        Action::HasClass => "Failed to get class attribute from "@,
        Action::IsDisplayed => "Failed to check if "@,
        Action::IsSelected => "Failed to check if "@,
        Action::IsEnabled => "Failed to check if "@,
        Action::Exists => "Error querying element "@,
        Action::SelectByText => "Failed to select text '"@,
        Action::SelectByValue => "Failed to select value '"@,
        Action::SelectByIndex => "Failed to select index "@,
        Action::GetSelectedText => "Failed to get selected option in "@,
        Action::ScrollTo => "Failed to scroll to "@,
        Action::WaitFor => "Timed out waiting for "@,
        Action::WaitUntilClickable => "Failed to check if "@,
        Action::TakeScreenshot => "Failed to take screenshot of "@,
    }
}

/// What stands between the argument and the field's name in the words about a rejected
/// call, for the actions whose words tell the argument.
pub open spec fn spec_failure_middle(action: Action) -> Option<Seq<char>> {
    match action {
        Action::GetAttribute | Action::GetCssValue => Some("' from "@),
        Action::SelectByText | Action::SelectByValue => Some("' in "@),
        Action::SelectByIndex => Some(" in "@),
        _ => None,
    }
}

/// What follows the field's name in the words about a rejected call.
pub open spec fn spec_failure_tail(action: Action) -> Seq<char> {
    match action {
        Action::DragTo => " to target"@,
        Action::IsDisplayed => " is displayed"@,
        Action::IsSelected => " is selected"@,
        Action::IsEnabled | Action::WaitUntilClickable => " is enabled"@,
        Action::WaitFor => " to be visible"@,
        _ => ""@,
    }
}

/// How the words about a rejected call begin, for the call that `action` wraps.
pub(crate) fn failure_head(action: Action) -> (r: &'static str)
    ensures
        r@ == spec_failure_head(action),
{
    match action {
        Action::Locate => "Error querying element ",
        Action::Click => "Failed to click ",
        Action::DoubleClick => "Failed to double-click ",
        Action::RightClick => "Failed to right-click ",
        Action::EnterKeys => "Failed to send keys to ",
        Action::Clear => "Failed to clear ",
        Action::Submit => "Failed to submit form ",
        Action::Hover => "Failed to hover over ",
        Action::DragTo => "Failed to drag ",
        Action::GetText => "Failed to get text from ",
        Action::GetAttribute => "Failed to get attribute '",
        Action::GetValue => "Failed to get value from ",
        Action::GetCssValue => "Failed to get CSS property '",
        Action::HasClass => "Failed to get class attribute from ",
        Action::IsDisplayed => "Failed to check if ",
        Action::IsSelected => "Failed to check if ",
        Action::IsEnabled => "Failed to check if ",
        Action::Exists => "Error querying element ",
        Action::SelectByText => "Failed to select text '",
        Action::SelectByValue => "Failed to select value '",
        Action::SelectByIndex => "Failed to select index ",
        Action::GetSelectedText => "Failed to get selected option in ",
        Action::ScrollTo => "Failed to scroll to ",
        Action::WaitFor => "Timed out waiting for ",
        Action::WaitUntilClickable => "Failed to check if ",
        Action::TakeScreenshot => "Failed to take screenshot of ",
    }
}

/// What stands between the argument and the field's name in the words about a rejected
/// call, for the actions whose words tell the argument.
pub(crate) fn failure_middle(action: Action) -> (r: Option<&'static str>)
    ensures
        match r {
            Some(middle) => spec_failure_middle(action) == Some(middle@),
            None => spec_failure_middle(action) is None,
        },
{
    match action {
        Action::GetAttribute | Action::GetCssValue => Some("' from "),
        Action::SelectByText | Action::SelectByValue => Some("' in "),
        Action::SelectByIndex => Some(" in "),
        _ => None,
    }
}

/// What follows the field's name in the words about a rejected call.
pub(crate) fn failure_tail(action: Action) -> (r: &'static str)
    ensures
        r@ == spec_failure_tail(action),
{
    match action {
        Action::DragTo => " to target",
        Action::IsDisplayed => " is displayed",
        Action::IsSelected => " is selected",
        Action::IsEnabled | Action::WaitUntilClickable => " is enabled",
        Action::WaitFor => " to be visible",
        _ => "",
    }
}

/// The text of an argument, as the words about a rejected call tell it.
pub open spec fn argument_text(argument: ArgumentView) -> Seq<char> {
    match argument {
        ArgumentView::Text(text) => text,
        ArgumentView::Index(index) => spec_decimal(index as nat),
        ArgumentView::Seconds(seconds) => spec_decimal(seconds as nat),
        _ => Seq::empty(),
    }
}

/// The message of an operation whose wrapped call the driver rejected with `cause`.
pub open spec fn spec_rejection(
    action: Action,
    argument: ArgumentView,
    field: Seq<char>,
    cause: Seq<char>,
) -> Seq<char> {
    let start = match spec_failure_middle(action) {
        Some(middle) => spec_failure_head(action) + argument_text(argument) + middle,
        None => spec_failure_head(action),
    };
    start + field + spec_failure_tail(action) + ": "@ + cause
}

/// The message of an operation that found no element.
pub open spec fn spec_not_found(field: Seq<char>) -> Seq<char> {
    field + " not found"@
}

/// The message of an operation whose element did not become visible in time.
pub open spec fn spec_timed_out(field: Seq<char>, cause: Seq<char>) -> Seq<char> {
    spec_rejection(Action::WaitFor, ArgumentView::Nothing, field, cause)
}

/// The message of an operation that waited for an element which then was disabled.
pub open spec fn spec_disabled(field: Seq<char>) -> Seq<char> {
    "Element "@ + field + " is not clickable (disabled)"@
}

/// The message of an operation whose second call the driver rejected with `cause`.
pub open spec fn spec_follow_up_rejection(field: Seq<char>, cause: Seq<char>) -> Seq<char> {
    "Failed to get text of selected option in "@ + field + ": "@ + cause
}

/// The call with which an operation gets hold of its element.
pub open spec fn spec_acquisition_call(acquisition: Acquisition) -> DriverCall {
    match acquisition {
        Acquisition::Query | Acquisition::Locate => DriverCall::FindFirst,
        Acquisition::Probe => DriverCall::Exists,
        Acquisition::Await => DriverCall::WaitVisible,
    }
}

/// What the wrapped call is handed: the argument of the operation as it is, for the
/// actions that forward it; the name of the attribute that they read, for two that read a
/// fixed one; nothing otherwise.
pub open spec fn spec_forwarded(action: Action, argument: ArgumentView) -> ArgumentView {
    match action {
        Action::EnterKeys | Action::DragTo | Action::GetAttribute | Action::GetCssValue
        | Action::SelectByText | Action::SelectByValue | Action::SelectByIndex => argument,
        Action::GetValue => ArgumentView::Text("value"@),
        Action::HasClass => ArgumentView::Text("class"@),
        _ => ArgumentView::Nothing,
    }
}

/// Whether the operation has the stage: every operation acquires; those that work on an
/// element make a call on it; one makes a second call.
pub open spec fn spec_has_stage(operation: GeneratedOperationView, stage: Stage) -> bool {
    match stage {
        Stage::Acquiring => true,
        Stage::Calling { .. } => operation.rule.acquisition == Acquisition::Locate
            || operation.rule.action == Action::WaitUntilClickable,
        Stage::FollowingUp { .. } => operation.rule.action == Action::GetSelectedText,
    }
}

/// What the operation asks of the driver at `stage`.
pub open spec fn spec_request(
    operation: GeneratedOperationView,
    argument: ArgumentView,
    stage: Stage,
) -> RequestView {
    match stage {
        Stage::Acquiring => RequestView::Query {
            call: spec_acquisition_call(operation.rule.acquisition),
            locator: operation.locator,
            argument: match operation.rule.acquisition {
                Acquisition::Await => argument,
                _ => ArgumentView::Nothing,
            },
        },
        Stage::Calling { element } => RequestView::Element {
            call: operation.rule.call,
            element,
            argument: spec_forwarded(operation.rule.action, argument),
        },
        Stage::FollowingUp { element } => RequestView::Element {
            call: DriverCall::Text,
            element,
            argument: ArgumentView::Nothing,
        },
    }
}

/// Whether the reply is one that the driver can give to what the operation asked at
/// `stage`: a rejection, or a value of the kind that the call yields.
pub open spec fn spec_fits(
    operation: GeneratedOperationView,
    argument: ArgumentView,
    stage: Stage,
    reply: ReplyView,
) -> bool {
    reply matches ReplyView::Answered(value) ==> value.kind() == spec_request(
        operation,
        argument,
        stage,
    ).call().spec_yields()
}

/// How the operation begins: it asks for its element, or for what it reports of the
/// locator.
pub open spec fn spec_start(operation: GeneratedOperationView, argument: ArgumentView) -> ProgressView {
    ProgressView::Ask {
        stage: Stage::Acquiring,
        request: spec_request(operation, argument, Stage::Acquiring),
    }
}

/// The operation asks for what it asks at `stage`.
pub open spec fn spec_ask(
    operation: GeneratedOperationView,
    argument: ArgumentView,
    stage: Stage,
) -> ProgressView {
    ProgressView::Ask { stage, request: spec_request(operation, argument, stage) }
}

/// How the operation goes on after the reply to what it asked while acquiring.
pub open spec fn spec_acquired(
    operation: GeneratedOperationView,
    argument: ArgumentView,
    reply: ReplyView,
) -> ProgressView {
    match operation.rule.acquisition {
        Acquisition::Query => ProgressView::Done(
            OutcomeView::Returned(
                ValueView::OptionalElement(
                    match reply {
                        ReplyView::Answered(ValueView::OptionalElement(element)) => element,
                        _ => None,
                    },
                ),
            ),
        ),
        Acquisition::Probe => ProgressView::Done(
            OutcomeView::Returned(
                ValueView::Flag(
                    match reply {
                        ReplyView::Answered(ValueView::Flag(found)) => found,
                        _ => false,
                    },
                ),
            ),
        ),
        Acquisition::Await => match reply {
            ReplyView::Answered(ValueView::Element(element)) => if operation.rule.action
                == Action::WaitUntilClickable {
                spec_ask(operation, argument, Stage::Calling { element })
            } else {
                ProgressView::Done(OutcomeView::Returned(ValueView::Element(element)))
            },
            ReplyView::Answered(value) => ProgressView::Done(OutcomeView::Returned(value)),
            ReplyView::Rejected(cause) => ProgressView::Done(
                OutcomeView::Failed(spec_timed_out(operation.field, cause)),
            ),
        },
        Acquisition::Locate => match reply {
            ReplyView::Answered(ValueView::OptionalElement(Some(element))) => spec_ask(
                operation,
                argument,
                Stage::Calling { element },
            ),
            _ => ProgressView::Done(OutcomeView::Failed(spec_not_found(operation.field))),
        },
    }
}

/// How the operation goes on after the reply to the call that it made on `element`.
pub open spec fn spec_called(
    operation: GeneratedOperationView,
    argument: ArgumentView,
    element: ElementHandle,
    reply: ReplyView,
) -> ProgressView {
    match reply {
        ReplyView::Rejected(cause) => ProgressView::Done(
            OutcomeView::Failed(
                spec_rejection(operation.rule.action, argument, operation.field, cause),
            ),
        ),
        ReplyView::Answered(value) => match operation.rule.action {
            Action::HasClass => ProgressView::Done(
                OutcomeView::Returned(
                    ValueView::Flag(
                        match value {
                            ValueView::OptionalText(Some(classes)) => has_word(
                                classes,
                                argument_text(argument),
                            ),
                            _ => false,
                        },
                    ),
                ),
            ),
            Action::GetSelectedText => match value {
                ValueView::Element(option) => spec_ask(
                    operation,
                    argument,
                    Stage::FollowingUp { element: option },
                ),
                _ => ProgressView::Done(OutcomeView::Returned(value)),
            },
            Action::WaitUntilClickable => match value {
                ValueView::Flag(true) => ProgressView::Done(
                    OutcomeView::Returned(ValueView::Element(element)),
                ),
                _ => ProgressView::Done(OutcomeView::Failed(spec_disabled(operation.field))),
            },
            _ => ProgressView::Done(OutcomeView::Returned(value)),
        },
    }
}

/// How the operation goes on after the reply to what it asked at `stage`.
pub open spec fn spec_resume(
    operation: GeneratedOperationView,
    argument: ArgumentView,
    stage: Stage,
    reply: ReplyView,
) -> ProgressView {
    match stage {
        Stage::Acquiring => spec_acquired(operation, argument, reply),
        Stage::Calling { element } => spec_called(operation, argument, element, reply),
        Stage::FollowingUp { .. } => match reply {
            ReplyView::Rejected(cause) => ProgressView::Done(
                OutcomeView::Failed(spec_follow_up_rejection(operation.field, cause)),
            ),
            ReplyView::Answered(value) => ProgressView::Done(OutcomeView::Returned(value)),
        },
    }
}

impl Argument {
    /// A copy of the argument.
    pub fn duplicate(&self) -> (r: Argument)
        ensures
            r@ == self@,
    {
        match self {
            Argument::Nothing => Argument::Nothing,
            Argument::Text(text) => Argument::Text(text.clone()),
            Argument::Index(index) => Argument::Index(*index),
            Argument::Seconds(seconds) => Argument::Seconds(*seconds),
            Argument::Element(element) => Argument::Element(*element),
        }
    }

    /// The text of the argument, as the words about a rejected call tell it.
    pub fn text(&self) -> (r: String)
        ensures
            r@ == argument_text(self@),
    {
        match self {
            Argument::Text(text) => text.clone(),
            Argument::Index(index) => decimal(*index as u64),
            Argument::Seconds(seconds) => decimal(*seconds),
            _ => String::new(),
        }
    }
}

/// The message of an operation whose wrapped call the driver rejected with `cause`.
pub fn rejection(action: Action, argument: &Argument, field: &str, cause: &str) -> (r: String)
    ensures
        r@ == spec_rejection(action, argument@, field@, cause@),
{
    let mut text = String::from_str(failure_head(action));
    match failure_middle(action) {
        Some(middle) => {
            let told = argument.text();
            text.append(told.as_str());
            text.append(middle);
        },
        None => {},
    }
    text.append(field);
    text.append(failure_tail(action));
    text.append(": ");
    text.append(cause);
    text
}

/// The message of an operation that found no element.
pub fn not_found(field: &str) -> (r: String)
    ensures
        r@ == spec_not_found(field@),
{
    let mut text = String::from_str(field);
    text.append(" not found");
    text
}

fn timed_out(field: &str, cause: &str) -> (r: String)
    ensures
        r@ == spec_timed_out(field@, cause@),
{
    rejection(Action::WaitFor, &Argument::Nothing, field, cause)
}

fn disabled(field: &str) -> (r: String)
    ensures
        r@ == spec_disabled(field@),
{
    let mut text = String::from_str("Element ");
    text.append(field);
    text.append(" is not clickable (disabled)");
    text
}

fn follow_up_rejection(field: &str, cause: &str) -> (r: String)
    ensures
        r@ == spec_follow_up_rejection(field@, cause@),
{
    let mut text = String::from_str("Failed to get text of selected option in ");
    text.append(field);
    text.append(": ");
    text.append(cause);
    text
}

fn acquisition_call(acquisition: Acquisition) -> (r: DriverCall)
    ensures
        r == spec_acquisition_call(acquisition),
{
    match acquisition {
        Acquisition::Query | Acquisition::Locate => DriverCall::FindFirst,
        Acquisition::Probe => DriverCall::Exists,
        Acquisition::Await => DriverCall::WaitVisible,
    }
}

fn forwarded(action: Action, argument: &Argument) -> (r: Argument)
    ensures
        r@ == spec_forwarded(action, argument@),
{
    match action {
        Action::EnterKeys | Action::DragTo | Action::GetAttribute | Action::GetCssValue
        | Action::SelectByText | Action::SelectByValue | Action::SelectByIndex => {
            argument.duplicate()
        },
        Action::GetValue => Argument::Text(String::from_str("value")),
        Action::HasClass => Argument::Text(String::from_str("class")),
        _ => Argument::Nothing,
    }
}

impl GeneratedOperation {
    /// Whether the operation has the stage.
    pub fn has_stage(&self, stage: Stage) -> (b: bool)
        ensures
            b == spec_has_stage(self@, stage),
    {
        match stage {
            Stage::Acquiring => true,
            Stage::Calling { .. } => self.rule.acquisition == Acquisition::Locate
                || self.rule.action == Action::WaitUntilClickable,
            Stage::FollowingUp { .. } => self.rule.action == Action::GetSelectedText,
        }
    }

    /// What the operation asks of the driver at `stage`. The locator goes to the driver as
    /// the field holds it, and the argument as the operation was handed it.
    pub fn request(&self, argument: &Argument, stage: Stage) -> (r: Request)
        ensures
            r@ == spec_request(self@, argument@, stage),
    {
        match stage {
            Stage::Acquiring => Request::Query {
                call: acquisition_call(self.rule.acquisition),
                locator: self.locator.clone(),
                argument: match self.rule.acquisition {
                    Acquisition::Await => argument.duplicate(),
                    _ => Argument::Nothing,
                },
            },
            Stage::Calling { element } => Request::Element {
                call: self.rule.call,
                element,
                argument: forwarded(self.rule.action, argument),
            },
            Stage::FollowingUp { element } => Request::Element {
                call: DriverCall::Text,
                element,
                argument: Argument::Nothing,
            },
        }
    }

    /// Whether the reply is one that the driver can give to what the operation asked at
    /// `stage`.
    pub fn fits(&self, argument: &Argument, stage: Stage, reply: &Reply) -> (b: bool)
        ensures
            b == spec_fits(self@, argument@, stage, reply@),
    {
        match reply {
            Reply::Rejected(_) => true,
            Reply::Answered(value) => {
                let call = match stage {
                    Stage::Acquiring => acquisition_call(self.rule.acquisition),
                    Stage::Calling { .. } => self.rule.call,
                    Stage::FollowingUp { .. } => DriverCall::Text,
                };
                value.kind() == call.yields()
            },
        }
    }

    /// Begins the operation: it asks for its element, or for what it reports of the
    /// locator.
    pub fn start(&self, argument: &Argument) -> (r: Progress)
        ensures
            r@ == spec_start(self@, argument@),
    {
        Progress::Ask { stage: Stage::Acquiring, request: self.request(argument, Stage::Acquiring) }
    }

    fn ask(&self, argument: &Argument, stage: Stage) -> (r: Progress)
        ensures
            r@ == spec_ask(self@, argument@, stage),
    {
        Progress::Ask { stage, request: self.request(argument, stage) }
    }

    /// Goes on with the operation after the driver's reply to what it asked at `stage`.
    ///
    /// While acquiring: the base operation returns the element or nothing, and the
    /// existence check `true` or `false`, a rejection counting as nothing and as `false`;
    /// an operation that waits fails when the wait was rejected; every other operation
    /// fails with `<field> not found` unless an element was found, and then makes the call
    /// that it wraps. After that call: a rejection fails the operation with words that
    /// name the field and end with the driver's; otherwise the operation returns what the
    /// call yielded, but for the three that work on it further: the class check looks for
    /// the class among the words of the attribute, the wait for a clickable element fails
    /// unless the element is enabled, and the text of the selected option takes a second
    /// call, on the option.
    ///
    /// The function is total. A value of another kind than the call yields (see `fits`)
    /// counts as no element for an operation that looks for one and as `false` for the
    /// existence check, and is returned as it is otherwise.
    pub fn resume(&self, argument: &Argument, stage: Stage, reply: Reply) -> (r: Progress)
        ensures
            r@ == spec_resume(self@, argument@, stage, reply@),
    {
        match stage {
            Stage::Acquiring => self.acquired(argument, reply),
            Stage::Calling { element } => self.called(argument, element, reply),
            Stage::FollowingUp { .. } => match reply {
                Reply::Rejected(cause) => Progress::Done(
                    Outcome::Failed(follow_up_rejection(self.field.as_str(), cause.as_str())),
                ),
                Reply::Answered(value) => Progress::Done(Outcome::Returned(value)),
            },
        }
    }

    fn acquired(&self, argument: &Argument, reply: Reply) -> (r: Progress)
        ensures
            r@ == spec_acquired(self@, argument@, reply@),
    {
        match self.rule.acquisition {
            Acquisition::Query => {
                let element = match reply {
                    Reply::Answered(Value::OptionalElement(element)) => element,
                    _ => None,
                };
                Progress::Done(Outcome::Returned(Value::OptionalElement(element)))
            },
            Acquisition::Probe => {
                let found = match reply {
                    Reply::Answered(Value::Flag(found)) => found,
                    _ => false,
                };
                Progress::Done(Outcome::Returned(Value::Flag(found)))
            },
            Acquisition::Await => match reply {
                Reply::Answered(Value::Element(element)) => {
                    if self.rule.action == Action::WaitUntilClickable {
                        self.ask(argument, Stage::Calling { element })
                    } else {
                        Progress::Done(Outcome::Returned(Value::Element(element)))
                    }
                },
                Reply::Answered(value) => Progress::Done(Outcome::Returned(value)),
                Reply::Rejected(cause) => Progress::Done(
                    Outcome::Failed(timed_out(self.field.as_str(), cause.as_str())),
                ),
            },
            Acquisition::Locate => match reply {
                Reply::Answered(Value::OptionalElement(Some(element))) => self.ask(
                    argument,
                    Stage::Calling { element },
                ),
                _ => Progress::Done(Outcome::Failed(not_found(self.field.as_str()))),
            },
        }
    }

    fn called(&self, argument: &Argument, element: ElementHandle, reply: Reply) -> (r: Progress)
        ensures
            r@ == spec_called(self@, argument@, element, reply@),
    {
        match reply {
            Reply::Rejected(cause) => Progress::Done(
                Outcome::Failed(
                    rejection(self.rule.action, argument, self.field.as_str(), cause.as_str()),
                ),
            ),
            Reply::Answered(value) => match self.rule.action {
                Action::HasClass => {
                    let found = match &value {
                        Value::OptionalText(Some(classes)) => {
                            let wanted = argument.text();
                            contains_word(classes.as_str(), wanted.as_str())
                        },
                        _ => false,
                    };
                    Progress::Done(Outcome::Returned(Value::Flag(found)))
                },
                Action::GetSelectedText => match value {
                    Value::Element(option) => self.ask(
                        argument,
                        Stage::FollowingUp { element: option },
                    ),
                    _ => Progress::Done(Outcome::Returned(value)),
                },
                Action::WaitUntilClickable => match value {
                    Value::Flag(true) => Progress::Done(
                        Outcome::Returned(Value::Element(element)),
                    ),
                    _ => Progress::Done(Outcome::Failed(disabled(self.field.as_str()))),
                },
                _ => Progress::Done(Outcome::Returned(value)),
            },
        }
    }
}

} // verus!
