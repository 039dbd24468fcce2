//! The action catalog: the closed vocabulary of operations that can be generated for a field of
//! a page object, and what each of them takes, yields and wraps.

use vstd::prelude::*;
use vstd::string::*;

verus! {

/// An operation that can be generated for a field.
///
/// `Locate` is the base operation: it is generated for every field and cannot be requested.
/// Every other action is generated only for the fields that request it by its canonical name.
#[derive(Clone, Copy, Debug, PartialEq, Eq, Hash, Structural)]
pub enum Action {
    Locate,
    Click,
    DoubleClick,
    RightClick,
    EnterKeys,
    Clear,
    Submit,
    Hover,
    DragTo,
    GetText,
    GetAttribute,
    GetValue,
    GetCssValue,
    HasClass,
    IsDisplayed,
    IsSelected,
    IsEnabled,
    Exists,
    SelectByText,
    SelectByValue,
    SelectByIndex,
    GetSelectedText,
    ScrollTo,
    WaitFor,
    WaitUntilClickable,
    TakeScreenshot,
}

/// The type of a value that a generated operation takes besides the automation session.
#[derive(Clone, Copy, Debug, PartialEq, Eq, Hash, Structural)]
pub enum ParameterKind {
    /// A piece of text, forwarded as it is.
    Text,
    /// A position in a list of options, counted from zero.
    Index,
    /// A duration in whole seconds.
    Seconds,
    /// A handle of another element.
    Element,
}

/// The one extra parameter of a generated operation, where it has one.
#[derive(Clone, Copy, Debug, PartialEq, Eq, Hash, Structural)]
pub enum Parameter {
    Keys,
    TargetElement,
    AttributeName,
    PropertyName,
    ClassName,
    OptionText,
    OptionValue,
    OptionIndex,
    TimeoutSecs,
}

/// What a generated operation hands back when it succeeds.
#[derive(Clone, Copy, Debug, PartialEq, Eq, Hash, Structural)]
pub enum ResultKind {
    /// An element handle, or nothing where no element matched.
    OptionalElement,
    /// Nothing but the fact that the operation went through.
    Marker,
    /// A text value.
    Text,
    /// A text value, or nothing where the element has none.
    OptionalText,
    /// A truth value.
    Flag,
    /// An element handle.
    Element,
    /// An encoded image.
    Image,
}

/// How a generated operation gets hold of the element it works on, which decides when it
/// fails before the wrapped driver call is made.
#[derive(Clone, Copy, Debug, PartialEq, Eq, Hash, Structural)]
pub enum Acquisition {
    /// Queries the driver for the first match. A query error counts as no match: never fails.
    Query,
    /// Delegates to the base operation of the field and fails where that finds no element.
    Locate,
    /// Asks the driver whether anything matches. A driver error counts as no: never fails.
    Probe,
    /// Polls until a matching element is visible and fails when the timeout elapses first.
    Await,
}

/// The driver operation that a generated operation wraps.
#[derive(Clone, Copy, Debug, PartialEq, Eq, Hash, Structural)]
pub enum DriverCall {
    FindFirst,
    Click,
    DoubleClick,
    ContextClick,
    SendKeys,
    Clear,
    Submit,
    MoveTo,
    DragAndDrop,
    Text,
    Attribute,
    CssValue,
    IsDisplayed,
    IsSelected,
    IsEnabled,
    Exists,
    SelectByVisibleText,
    SelectByValue,
    SelectByIndex,
    FirstSelectedOption,
    ScrollIntoView,
    WaitVisible,
    ScreenshotBase64,
}

/// An entry of the catalog: the generation rule of one action.
#[derive(Clone, Copy, Debug, PartialEq, Eq, Hash, Structural)]
pub struct ActionRule {
    pub action: Action,
    pub parameter: Option<Parameter>,
    pub result: ResultKind,
    pub acquisition: Acquisition,
    pub call: DriverCall,
}

impl Parameter {
    pub open spec fn spec_kind(self) -> ParameterKind {
        match self {
            Parameter::Keys => ParameterKind::Text,
            Parameter::TargetElement => ParameterKind::Element,
            Parameter::AttributeName => ParameterKind::Text,
            Parameter::PropertyName => ParameterKind::Text,
            Parameter::ClassName => ParameterKind::Text,
            Parameter::OptionText => ParameterKind::Text,
            Parameter::OptionValue => ParameterKind::Text,
            Parameter::OptionIndex => ParameterKind::Index,
            Parameter::TimeoutSecs => ParameterKind::Seconds,
        }
    }

    /// The type of the value that this parameter takes.
    #[verifier::when_used_as_spec(spec_kind)]
    pub fn kind(self) -> (k: ParameterKind)
        ensures
            k == self.spec_kind(),
    {
        match self {
            Parameter::Keys => ParameterKind::Text,
            Parameter::TargetElement => ParameterKind::Element,
            Parameter::AttributeName => ParameterKind::Text,
            Parameter::PropertyName => ParameterKind::Text,
            Parameter::ClassName => ParameterKind::Text,
            Parameter::OptionText => ParameterKind::Text,
            Parameter::OptionValue => ParameterKind::Text,
            Parameter::OptionIndex => ParameterKind::Index,
            Parameter::TimeoutSecs => ParameterKind::Seconds,
        }
    }
}

impl Action {
    /// The name by which a field requests this action.
    pub open spec fn spec_name(self) -> Seq<char> {
        match self {
            Action::Locate => "locate"@,
            Action::Click => "click"@,
            Action::DoubleClick => "double_click"@,
            Action::RightClick => "right_click"@,
            Action::EnterKeys => "enter_keys"@,
            Action::Clear => "clear"@,
            Action::Submit => "submit"@,
            Action::Hover => "hover"@,
            Action::DragTo => "drag_to"@,
            Action::GetText => "get_text"@,
            Action::GetAttribute => "get_attribute"@,
            Action::GetValue => "get_value"@,
            Action::GetCssValue => "get_css_value"@,
            Action::HasClass => "has_class"@,
            Action::IsDisplayed => "is_displayed"@,
            Action::IsSelected => "is_selected"@,
            Action::IsEnabled => "is_enabled"@,
            Action::Exists => "exists"@,
            Action::SelectByText => "select_by_text"@,
            Action::SelectByValue => "select_by_value"@,
            Action::SelectByIndex => "select_by_index"@,
            Action::GetSelectedText => "get_selected_text"@,
            Action::ScrollTo => "scroll_to"@,
            Action::WaitFor => "wait_for"@,
            Action::WaitUntilClickable => "wait_until_clickable"@,
            Action::TakeScreenshot => "take_screenshot"@,
        }
    }

    /// The canonical name of this action.
    pub fn name(self) -> (r: &'static str)
        ensures
            r@ == self.spec_name(),
    {
        match self {
            Action::Locate => "locate",
            Action::Click => "click",
            Action::DoubleClick => "double_click",
            Action::RightClick => "right_click",
            Action::EnterKeys => "enter_keys",
            Action::Clear => "clear",
            Action::Submit => "submit",
            Action::Hover => "hover",
            Action::DragTo => "drag_to",
            Action::GetText => "get_text",
            Action::GetAttribute => "get_attribute",
            Action::GetValue => "get_value",
            Action::GetCssValue => "get_css_value",
            Action::HasClass => "has_class",
            Action::IsDisplayed => "is_displayed",
            Action::IsSelected => "is_selected",
            Action::IsEnabled => "is_enabled",
            Action::Exists => "exists",
            Action::SelectByText => "select_by_text",
            Action::SelectByValue => "select_by_value",
            Action::SelectByIndex => "select_by_index",
            Action::GetSelectedText => "get_selected_text",
            Action::ScrollTo => "scroll_to",
            Action::WaitFor => "wait_for",
            Action::WaitUntilClickable => "wait_until_clickable",
            Action::TakeScreenshot => "take_screenshot",
        }
    }
}

impl Action {
    /// Whether a field can request this action. The base operation cannot be requested: every
    /// field gets it.
    pub open spec fn spec_is_requestable(self) -> bool {
        self != Action::Locate
    }

    #[verifier::when_used_as_spec(spec_is_requestable)]
    pub fn is_requestable(self) -> (b: bool)
        ensures
            b == self.spec_is_requestable(),
    {
        match self {
            Action::Locate => false,
            _ => true,
        }
    }

    /// The extra parameter of the generated operation, beyond the automation session.
    pub open spec fn spec_parameter(self) -> Option<Parameter> {
        match self {
            Action::EnterKeys => Some(Parameter::Keys),
            Action::DragTo => Some(Parameter::TargetElement),
            Action::GetAttribute => Some(Parameter::AttributeName),
            Action::GetCssValue => Some(Parameter::PropertyName),
            Action::HasClass => Some(Parameter::ClassName),
            Action::SelectByText => Some(Parameter::OptionText),
            Action::SelectByValue => Some(Parameter::OptionValue),
            Action::SelectByIndex => Some(Parameter::OptionIndex),
            Action::WaitFor | Action::WaitUntilClickable => Some(Parameter::TimeoutSecs),
            _ => None,
        }
    }

    /// The extra parameter of the generated operation, beyond the automation session.
    #[verifier::when_used_as_spec(spec_parameter)]
    pub fn parameter(self) -> (r: Option<Parameter>)
        ensures
            r == self.spec_parameter(),
    {
        match self {
            Action::EnterKeys => Some(Parameter::Keys),
            Action::DragTo => Some(Parameter::TargetElement),
            Action::GetAttribute => Some(Parameter::AttributeName),
            Action::GetCssValue => Some(Parameter::PropertyName),
            Action::HasClass => Some(Parameter::ClassName),
            Action::SelectByText => Some(Parameter::OptionText),
            Action::SelectByValue => Some(Parameter::OptionValue),
            Action::SelectByIndex => Some(Parameter::OptionIndex),
            Action::WaitFor | Action::WaitUntilClickable => Some(Parameter::TimeoutSecs),
            _ => None,
        }
    }

    /// What the generated operation yields when it succeeds.
    pub open spec fn spec_result(self) -> ResultKind {
        match self {
            Action::Locate => ResultKind::OptionalElement,
            Action::GetText | Action::GetCssValue | Action::GetSelectedText => ResultKind::Text,
            Action::GetAttribute | Action::GetValue => ResultKind::OptionalText,
            Action::HasClass | Action::IsDisplayed | Action::IsSelected | Action::IsEnabled
            | Action::Exists => ResultKind::Flag,
            Action::WaitFor | Action::WaitUntilClickable => ResultKind::Element,
            Action::TakeScreenshot => ResultKind::Image,
            _ => ResultKind::Marker,
        }
    }

    /// What the generated operation yields when it succeeds.
    #[verifier::when_used_as_spec(spec_result)]
    pub fn result(self) -> (r: ResultKind)
        ensures
            r == self.spec_result(),
    {
        match self {
            Action::Locate => ResultKind::OptionalElement,
            Action::GetText | Action::GetCssValue | Action::GetSelectedText => ResultKind::Text,
            Action::GetAttribute | Action::GetValue => ResultKind::OptionalText,
            Action::HasClass | Action::IsDisplayed | Action::IsSelected | Action::IsEnabled
            | Action::Exists => ResultKind::Flag,
            Action::WaitFor | Action::WaitUntilClickable => ResultKind::Element,
            Action::TakeScreenshot => ResultKind::Image,
            _ => ResultKind::Marker,
        }
    }

    /// How the generated operation gets hold of its element.
    pub open spec fn spec_acquisition(self) -> Acquisition {
        match self {
            Action::Locate => Acquisition::Query,
            Action::Exists => Acquisition::Probe,
            Action::WaitFor | Action::WaitUntilClickable => Acquisition::Await,
            _ => Acquisition::Locate,
        }
    }

    /// How the generated operation gets hold of its element.
    #[verifier::when_used_as_spec(spec_acquisition)]
    pub fn acquisition(self) -> (r: Acquisition)
        ensures
            r == self.spec_acquisition(),
    {
        match self {
            Action::Locate => Acquisition::Query,
            Action::Exists => Acquisition::Probe,
            Action::WaitFor | Action::WaitUntilClickable => Acquisition::Await,
            _ => Acquisition::Locate,
        }
    }

    /// The driver call whose reply decides the result of the generated operation.
    pub open spec fn spec_call(self) -> DriverCall {
        match self {
            Action::Locate => DriverCall::FindFirst,
            Action::Click => DriverCall::Click,
            Action::DoubleClick => DriverCall::DoubleClick,
            Action::RightClick => DriverCall::ContextClick,
            Action::EnterKeys => DriverCall::SendKeys,
            Action::Clear => DriverCall::Clear,
            Action::Submit => DriverCall::Submit,
            Action::Hover => DriverCall::MoveTo,
            Action::DragTo => DriverCall::DragAndDrop,
            Action::GetText => DriverCall::Text,
            Action::GetAttribute | Action::GetValue | Action::HasClass => DriverCall::Attribute,
            Action::GetCssValue => DriverCall::CssValue,
            Action::IsDisplayed => DriverCall::IsDisplayed,
            Action::IsSelected => DriverCall::IsSelected,
            Action::IsEnabled | Action::WaitUntilClickable => DriverCall::IsEnabled,
            Action::Exists => DriverCall::Exists,
            Action::SelectByText => DriverCall::SelectByVisibleText,
            Action::SelectByValue => DriverCall::SelectByValue,
            Action::SelectByIndex => DriverCall::SelectByIndex,
            Action::GetSelectedText => DriverCall::FirstSelectedOption,
            Action::ScrollTo => DriverCall::ScrollIntoView,
            Action::WaitFor => DriverCall::WaitVisible,
            Action::TakeScreenshot => DriverCall::ScreenshotBase64,
        }
    }

    /// The driver call whose reply decides the result of the generated operation.
    #[verifier::when_used_as_spec(spec_call)]
    pub fn call(self) -> (r: DriverCall)
        ensures
            r == self.spec_call(),
    {
        match self {
            Action::Locate => DriverCall::FindFirst,
            Action::Click => DriverCall::Click,
            Action::DoubleClick => DriverCall::DoubleClick,
            Action::RightClick => DriverCall::ContextClick,
            Action::EnterKeys => DriverCall::SendKeys,
            Action::Clear => DriverCall::Clear,
            Action::Submit => DriverCall::Submit,
            Action::Hover => DriverCall::MoveTo,
            Action::DragTo => DriverCall::DragAndDrop,
            Action::GetText => DriverCall::Text,
            Action::GetAttribute | Action::GetValue | Action::HasClass => DriverCall::Attribute,
            Action::GetCssValue => DriverCall::CssValue,
            Action::IsDisplayed => DriverCall::IsDisplayed,
            Action::IsSelected => DriverCall::IsSelected,
            Action::IsEnabled | Action::WaitUntilClickable => DriverCall::IsEnabled,
            Action::Exists => DriverCall::Exists,
            Action::SelectByText => DriverCall::SelectByVisibleText,
            Action::SelectByValue => DriverCall::SelectByValue,
            Action::SelectByIndex => DriverCall::SelectByIndex,
            Action::GetSelectedText => DriverCall::FirstSelectedOption,
            Action::ScrollTo => DriverCall::ScrollIntoView,
            Action::WaitFor => DriverCall::WaitVisible,
            Action::TakeScreenshot => DriverCall::ScreenshotBase64,
        }
    }

    /// The catalog's entry for this action.
    pub open spec fn spec_rule(self) -> ActionRule {
        ActionRule {
            action: self,
            parameter: self.spec_parameter(),
            result: self.spec_result(),
            acquisition: self.spec_acquisition(),
            call: self.spec_call(),
        }
    }

    /// The catalog's entry for this action.
    #[verifier::when_used_as_spec(spec_rule)]
    pub fn rule(self) -> (r: ActionRule)
        ensures
            r == self.spec_rule(),
    {
        ActionRule {
            action: self,
            parameter: self.parameter(),
            result: self.result(),
            acquisition: self.acquisition(),
            call: self.call(),
        }
    }

    /// The name of the operation generated for this action on the field `field`: the
    /// canonical name, an underscore and the field's name; for `drag_to`, the field's name
    /// between `drag_` and `_to`.
    pub open spec fn spec_method_name(self, field: Seq<char>) -> Seq<char> {
        match self {
            Action::DragTo => "drag_"@ + field + "_to"@,
            _ => self.spec_name() + "_"@ + field,
        }
    }

    /// The name of the operation generated for this action on the field `field`.
    pub fn method_name(self, field: &str) -> (r: String)
        ensures
            r@ == self.spec_method_name(field@),
    {
        match self {
            Action::DragTo => {
                let mut text = String::from_str("drag_");
                text.append(field);
                text.append("_to");
                text
            },
            _ => {
                let mut text = String::from_str(self.name());
                text.append("_");
                text.append(field);
                text
            },
        }
    }
}

impl ActionRule {
    /// Whether the generated operation can end in a failure. The base operation and the
    /// existence check cannot: they answer with an absent element or with `false`.
    pub open spec fn spec_can_fail(self) -> bool {
        self.acquisition == Acquisition::Locate || self.acquisition == Acquisition::Await
    }

    #[verifier::when_used_as_spec(spec_can_fail)]
    pub fn can_fail(self) -> (b: bool)
        ensures
            b == self.spec_can_fail(),
    {
        self.acquisition == Acquisition::Locate || self.acquisition == Acquisition::Await
    }
}

/// Whether the catalog has an action that a field can request by `name`.
pub open spec fn is_requestable_name(name: Seq<char>) -> bool {
    exists|action: Action| action.is_requestable() && #[trigger] action.spec_name() == name
}

/// The action that a field requests by `name`, if the catalog has one of that name.
pub open spec fn spec_action_named(name: Seq<char>) -> Option<Action> {
    if is_requestable_name(name) {
        Some(choose|action: Action| action.is_requestable() && #[trigger] action.spec_name() == name)
    } else {
        None
    }
}

/// The catalog's entry for the action that a field requests by `name`.
pub open spec fn spec_lookup(name: Seq<char>) -> Option<ActionRule> {
    match spec_action_named(name) {
        Some(action) => Some(action.spec_rule()),
        None => None,
    }
}

/// The catalog answers by name: it finds an action exactly where a requestable action has
/// that canonical name, and then it finds that one.
pub proof fn lemma_action_named(name: Seq<char>)
    ensures
        match spec_action_named(name) {
            Some(action) => action.is_requestable() && action.spec_name() == name,
            None => forall|a: Action| a.is_requestable() ==> a.spec_name() != name,
        },
{
}

/// Every requestable action is found under its own canonical name.
pub proof fn lemma_action_named_own(action: Action)
    requires
        action.is_requestable(),
    ensures
        spec_action_named(action.spec_name()) == Some(action),
{
    lemma_action_named(action.spec_name());
    lemma_names_distinct(spec_action_named(action.spec_name()).unwrap(), action);
}

fn is_named(text: &String, action: Action) -> (b: bool)
    ensures
        b == (text@ == action.spec_name()),
{
    let name = String::from_str(action.name());
    *text == name
}

/// The action that a field requests by `name`: `None` where the catalog has no requestable
/// action of that name.
pub fn action_named(name: &str) -> (r: Option<Action>)
    ensures
        r == spec_action_named(name@),
        match r {
            Some(action) => action.is_requestable() && action.spec_name() == name@,
            None => forall|a: Action| a.is_requestable() ==> a.spec_name() != name@,
        },
{
    let actions = vocabulary();
    let text = String::from_str(name);
    let mut i: usize = 0;
    while i < actions.len()
        invariant
            i <= actions.len(),
            text@ == name@,
            forall|action: Action| actions@.contains(action) <==> action.is_requestable(),
            forall|j: int| 0 <= j < i ==> (#[trigger] actions@[j]).spec_name() != name@,
        decreases actions.len() - i,
    {
        let action = actions[i];
        if is_named(&text, action) {
            proof {
                assert(actions@.contains(action));
                lemma_action_named(name@);
                lemma_names_distinct(spec_action_named(name@).unwrap(), action);
            }
            return Some(action);
        }
        i += 1;
    }
    proof {
        assert forall|a: Action| a.is_requestable() implies a.spec_name() != name@ by {
            assert(actions@.contains(a));
            let j = choose|j: int| 0 <= j < actions@.len() && actions@[j] == a;
            assert(actions@[j].spec_name() != name@);
        }
    }
    None
}

/// Looks an action up by the name under which a field requests it. An unknown name is an
/// ordinary answer, `None`; nothing else happens.
pub fn lookup(name: &str) -> (r: Option<ActionRule>)
    ensures
        r == spec_lookup(name@),
        match r {
            Some(rule) => rule == rule.action.spec_rule() && rule.action.is_requestable()
                && rule.action.spec_name() == name@,
            None => forall|a: Action| a.is_requestable() ==> a.spec_name() != name@,
        },
{
    match action_named(name) {
        Some(action) => Some(action.rule()),
        None => None,
    }
}

/// The base rule: the entry of the operation that every field gets.
pub fn base_rule() -> (r: ActionRule)
    ensures
        r == Action::Locate.spec_rule(),
{
    Action::Locate.rule()
}

/// The vocabulary: every action that a field can request, each once.
pub fn vocabulary() -> (actions: Vec<Action>)
    ensures
        actions@.no_duplicates(),
        forall|action: Action| actions@.contains(action) <==> action.is_requestable(),
{
    let mut actions: Vec<Action> = Vec::new();
    actions.push(Action::Click);
    actions.push(Action::DoubleClick);
    actions.push(Action::RightClick);
    actions.push(Action::EnterKeys);
    actions.push(Action::Clear);
    actions.push(Action::Submit);
    actions.push(Action::Hover);
    actions.push(Action::DragTo);
    actions.push(Action::GetText);
    actions.push(Action::GetAttribute);
    actions.push(Action::GetValue);
    actions.push(Action::GetCssValue);
    actions.push(Action::HasClass);
    actions.push(Action::IsDisplayed);
    actions.push(Action::IsSelected);
    actions.push(Action::IsEnabled);
    actions.push(Action::Exists);
    actions.push(Action::SelectByText);
    actions.push(Action::SelectByValue);
    actions.push(Action::SelectByIndex);
    actions.push(Action::GetSelectedText);
    actions.push(Action::ScrollTo);
    actions.push(Action::WaitFor);
    actions.push(Action::WaitUntilClickable);
    actions.push(Action::TakeScreenshot);
    proof {
        assert(actions@[0] == Action::Click);
        assert(actions@[1] == Action::DoubleClick);
        assert(actions@[2] == Action::RightClick);
        assert(actions@[3] == Action::EnterKeys);
        assert(actions@[4] == Action::Clear);
        assert(actions@[5] == Action::Submit);
        assert(actions@[6] == Action::Hover);
        assert(actions@[7] == Action::DragTo);
        assert(actions@[8] == Action::GetText);
        assert(actions@[9] == Action::GetAttribute);
        assert(actions@[10] == Action::GetValue);
        assert(actions@[11] == Action::GetCssValue);
        assert(actions@[12] == Action::HasClass);
        assert(actions@[13] == Action::IsDisplayed);
        assert(actions@[14] == Action::IsSelected);
        assert(actions@[15] == Action::IsEnabled);
        assert(actions@[16] == Action::Exists);
        assert(actions@[17] == Action::SelectByText);
        assert(actions@[18] == Action::SelectByValue);
        assert(actions@[19] == Action::SelectByIndex);
        assert(actions@[20] == Action::GetSelectedText);
        assert(actions@[21] == Action::ScrollTo);
        assert(actions@[22] == Action::WaitFor);
        assert(actions@[23] == Action::WaitUntilClickable);
        assert(actions@[24] == Action::TakeScreenshot);
    }
    actions
}

/// No two actions share a canonical name.
#[verifier::rlimit(50)]
pub proof fn lemma_names_distinct(a: Action, b: Action)
    requires
        a.spec_name() == b.spec_name(),
    ensures
        a == b,
{
    let s = a.spec_name();
    let t = b.spec_name();
    assert(s.len() == t.len());
    assert(s[0] == t[0] && s[1] == t[1] && s[2] == t[2] && s[3] == t[3] && s[4] == t[4]);
    assert(s.len() > 10 ==> s[10] == t[10]);
    reveal_strlit("locate");
    reveal_strlit("click");
    reveal_strlit("double_click");
    reveal_strlit("right_click");
    reveal_strlit("enter_keys");
    reveal_strlit("clear");
    reveal_strlit("submit");
    reveal_strlit("hover");
    reveal_strlit("drag_to");
    reveal_strlit("get_text");
    reveal_strlit("get_attribute");
    reveal_strlit("get_value");
    reveal_strlit("get_css_value");
    reveal_strlit("has_class");
    reveal_strlit("is_displayed");
    reveal_strlit("is_selected");
    reveal_strlit("is_enabled");
    reveal_strlit("exists");
    reveal_strlit("select_by_text");
    reveal_strlit("select_by_value");
    reveal_strlit("select_by_index");
    reveal_strlit("get_selected_text");
    reveal_strlit("scroll_to");
    reveal_strlit("wait_for");
    reveal_strlit("wait_until_clickable");
    reveal_strlit("take_screenshot");
}

/// What stands before the field's name in the name of a generated operation.
pub open spec fn spec_method_prefix(action: Action) -> Seq<char> {
    match action {
        Action::DragTo => "drag_"@,
        _ => action.spec_name() + "_"@,
    }
}

/// The prefixes differ from each other within their first eleven characters, none being the
/// start of another.
#[verifier::rlimit(50)]
proof fn lemma_prefixes_differ(a: Action, b: Action)
    requires
        a != b,
    ensures
        exists|i: int|
            0 <= i < spec_method_prefix(a).len() && i < spec_method_prefix(b).len()
                && spec_method_prefix(a)[i] != spec_method_prefix(b)[i],
{
    reveal_strlit("locate");
    reveal_strlit("click");
    reveal_strlit("double_click");
    reveal_strlit("right_click");
    reveal_strlit("enter_keys");
    reveal_strlit("clear");
    reveal_strlit("submit");
    reveal_strlit("hover");
    reveal_strlit("drag_to");
    reveal_strlit("get_text");
    reveal_strlit("get_attribute");
    reveal_strlit("get_value");
    reveal_strlit("get_css_value");
    reveal_strlit("has_class");
    reveal_strlit("is_displayed");
    reveal_strlit("is_selected");
    reveal_strlit("is_enabled");
    reveal_strlit("exists");
    reveal_strlit("select_by_text");
    reveal_strlit("select_by_value");
    reveal_strlit("select_by_index");
    reveal_strlit("get_selected_text");
    reveal_strlit("scroll_to");
    reveal_strlit("wait_for");
    reveal_strlit("wait_until_clickable");
    reveal_strlit("take_screenshot");
    reveal_strlit("drag_");
    reveal_strlit("_");
    let s = spec_method_prefix(a);
    let t = spec_method_prefix(b);
    if s[0] != t[0] {
    } else if s[1] != t[1] {
    } else if s[2] != t[2] {
    } else if s[3] != t[3] {
    } else if s[4] != t[4] {
    } else if s[5] != t[5] {
        assert(s.len() > 5 && t.len() > 5);
    } else {
        assert(s.len() > 10 && t.len() > 10);
        assert(s[10] != t[10]);
    }
}

/// The name of a generated operation tells both the action and the field: two operations
/// bear the same name only where they are the same action on the same field.
#[verifier::rlimit(50)]
pub proof fn lemma_method_names_injective(a: Action, f: Seq<char>, b: Action, g: Seq<char>)
    requires
        a.spec_method_name(f) == b.spec_method_name(g),
    ensures
        a == b,
        f == g,
{
    let s = a.spec_method_name(f);
    let t = b.spec_method_name(g);
    let p = spec_method_prefix(a);
    let q = spec_method_prefix(b);
    assert(forall|i: int| 0 <= i < p.len() ==> s[i] == p[i]);
    assert(forall|i: int| 0 <= i < q.len() ==> t[i] == q[i]);
    if a != b {
        lemma_prefixes_differ(a, b);
        let i = choose|i: int|
            0 <= i < spec_method_prefix(a).len() && i < spec_method_prefix(b).len()
                && spec_method_prefix(a)[i] != spec_method_prefix(b)[i];
        assert(s[i] == p[i]);
        assert(t[i] == q[i]);
        assert(false);
    }
    if a == Action::DragTo {
        let tail = "_to"@;
        assert(s == p + f + tail);
        assert(t == p + g + tail);
        assert(s.len() == p.len() + f.len() + tail.len());
        assert(t.len() == p.len() + g.len() + tail.len());
        assert(f =~= s.subrange(p.len() as int, (p.len() + f.len()) as int));
        assert(g =~= t.subrange(p.len() as int, (p.len() + g.len()) as int));
    } else {
        assert(s == p + f);
        assert(t == p + g);
        assert(f =~= s.skip(p.len() as int));
        assert(g =~= t.skip(p.len() as int));
    }
}

} // verus!
