use thirtyfour_actions::catalog::{
    action_named, base_rule, lookup, vocabulary, Acquisition, Action, ActionRule, DriverCall,
    Parameter, ParameterKind, ResultKind,
};

#[test]
fn lookup_finds_click() {
    let rule = lookup("click").expect("the catalog has click");
    assert_eq!(
        rule,
        ActionRule {
            action: Action::Click,
            parameter: None,
            result: ResultKind::Marker,
            acquisition: Acquisition::Locate,
            call: DriverCall::Click,
        }
    );
}

#[test]
fn lookup_answers_none_for_an_unknown_name() {
    assert_eq!(lookup("bogus_action"), None);
    assert_eq!(lookup(""), None);
    assert_eq!(lookup("Click"), None);
    assert_eq!(lookup("click "), None);
    assert_eq!(lookup("clic"), None);
}

#[test]
fn the_base_operation_cannot_be_requested() {
    assert_eq!(lookup("locate"), None);
    assert_eq!(action_named("locate"), None);
    assert!(!Action::Locate.is_requestable());
    assert_eq!(base_rule().action, Action::Locate);
    assert_eq!(base_rule().result, ResultKind::OptionalElement);
    assert!(!base_rule().can_fail());
}

#[test]
fn every_action_is_found_under_its_own_name() {
    let actions = vocabulary();
    assert_eq!(actions.len(), 25);
    for action in actions.iter() {
        assert!(action.is_requestable());
        assert_eq!(action_named(action.name()), Some(*action));
        assert_eq!(lookup(action.name()), Some(action.rule()));
        assert_eq!(action.rule().action, *action);
    }
}

#[test]
fn no_two_actions_share_a_name() {
    let mut names: Vec<&str> = vocabulary().iter().map(|action| action.name()).collect();
    names.push(Action::Locate.name());
    let count = names.len();
    names.sort();
    names.dedup();
    assert_eq!(names.len(), count);
}

#[test]
fn canonical_names() {
    assert_eq!(Action::Locate.name(), "locate");
    assert_eq!(Action::EnterKeys.name(), "enter_keys");
    assert_eq!(Action::DragTo.name(), "drag_to");
    assert_eq!(Action::WaitUntilClickable.name(), "wait_until_clickable");
    assert_eq!(Action::TakeScreenshot.name(), "take_screenshot");
}

#[test]
fn method_names_are_made_of_action_and_field() {
    assert_eq!(Action::Locate.method_name("loginButton"), "locate_loginButton");
    assert_eq!(Action::Click.method_name("loginButton"), "click_loginButton");
    assert_eq!(Action::EnterKeys.method_name("email"), "enter_keys_email");
    assert_eq!(Action::DragTo.method_name("card"), "drag_card_to");
    assert_eq!(Action::Exists.method_name(""), "exists_");
}

#[test]
fn method_names_tell_action_and_field_apart() {
    let fields = ["a", "click_a", "to", "a_to", "_", "text_a"];
    let mut actions = vocabulary();
    actions.push(Action::Locate);
    let mut names: Vec<String> = Vec::new();
    for action in actions.iter() {
        for field in fields.iter() {
            names.push(action.method_name(field));
        }
    }
    let count = names.len();
    names.sort();
    names.dedup();
    assert_eq!(names.len(), count);
}

#[test]
fn parameters_of_the_rules() {
    assert_eq!(Action::Click.rule().parameter, None);
    assert_eq!(Action::EnterKeys.rule().parameter, Some(Parameter::Keys));
    assert_eq!(Action::GetAttribute.rule().parameter, Some(Parameter::AttributeName));
    assert_eq!(Action::DragTo.rule().parameter, Some(Parameter::TargetElement));
    assert_eq!(Action::SelectByText.rule().parameter, Some(Parameter::OptionText));
    assert_eq!(Action::SelectByValue.rule().parameter, Some(Parameter::OptionValue));
    assert_eq!(Action::SelectByIndex.rule().parameter, Some(Parameter::OptionIndex));
    assert_eq!(Action::WaitFor.rule().parameter, Some(Parameter::TimeoutSecs));
    assert_eq!(Action::WaitUntilClickable.rule().parameter, Some(Parameter::TimeoutSecs));
    assert_eq!(Parameter::Keys.kind(), ParameterKind::Text);
    assert_eq!(Parameter::TargetElement.kind(), ParameterKind::Element);
    assert_eq!(Parameter::OptionIndex.kind(), ParameterKind::Index);
    assert_eq!(Parameter::TimeoutSecs.kind(), ParameterKind::Seconds);
}

#[test]
fn results_of_the_rules() {
    assert_eq!(Action::Locate.rule().result, ResultKind::OptionalElement);
    assert_eq!(Action::Click.rule().result, ResultKind::Marker);
    assert_eq!(Action::EnterKeys.rule().result, ResultKind::Marker);
    assert_eq!(Action::Clear.rule().result, ResultKind::Marker);
    assert_eq!(Action::GetText.rule().result, ResultKind::Text);
    assert_eq!(Action::GetAttribute.rule().result, ResultKind::OptionalText);
    assert_eq!(Action::IsDisplayed.rule().result, ResultKind::Flag);
    assert_eq!(Action::IsSelected.rule().result, ResultKind::Flag);
    assert_eq!(Action::IsEnabled.rule().result, ResultKind::Flag);
    assert_eq!(Action::Exists.rule().result, ResultKind::Flag);
    assert_eq!(Action::SelectByIndex.rule().result, ResultKind::Marker);
    assert_eq!(Action::WaitFor.rule().result, ResultKind::Element);
    assert_eq!(Action::WaitUntilClickable.rule().result, ResultKind::Element);
    assert_eq!(Action::TakeScreenshot.rule().result, ResultKind::Image);
    assert_eq!(Action::Hover.rule().result, ResultKind::Marker);
    assert_eq!(Action::Submit.rule().result, ResultKind::Marker);
}

#[test]
fn only_the_base_operation_and_the_existence_check_never_fail() {
    let mut actions = vocabulary();
    actions.push(Action::Locate);
    for action in actions.iter() {
        let never = *action == Action::Locate || *action == Action::Exists;
        assert_eq!(action.rule().can_fail(), !never, "{:?}", action);
    }
}

#[test]
fn operations_on_an_element_go_through_the_base_operation() {
    for action in vocabulary().iter() {
        let rule = action.rule();
        match action {
            Action::Exists => assert_eq!(rule.acquisition, Acquisition::Probe),
            Action::WaitFor | Action::WaitUntilClickable => {
                assert_eq!(rule.acquisition, Acquisition::Await)
            }
            _ => assert_eq!(rule.acquisition, Acquisition::Locate),
        }
    }
    assert_eq!(Action::Locate.rule().acquisition, Acquisition::Query);
}

#[test]
fn wrapped_driver_calls() {
    assert_eq!(Action::Locate.rule().call, DriverCall::FindFirst);
    assert_eq!(Action::RightClick.rule().call, DriverCall::ContextClick);
    assert_eq!(Action::EnterKeys.rule().call, DriverCall::SendKeys);
    assert_eq!(Action::Hover.rule().call, DriverCall::MoveTo);
    assert_eq!(Action::DragTo.rule().call, DriverCall::DragAndDrop);
    assert_eq!(Action::GetValue.rule().call, DriverCall::Attribute);
    assert_eq!(Action::HasClass.rule().call, DriverCall::Attribute);
    assert_eq!(Action::Exists.rule().call, DriverCall::Exists);
    assert_eq!(Action::SelectByText.rule().call, DriverCall::SelectByVisibleText);
    assert_eq!(Action::GetSelectedText.rule().call, DriverCall::FirstSelectedOption);
    assert_eq!(Action::ScrollTo.rule().call, DriverCall::ScrollIntoView);
    assert_eq!(Action::WaitFor.rule().call, DriverCall::WaitVisible);
    assert_eq!(Action::WaitUntilClickable.rule().call, DriverCall::IsEnabled);
    assert_eq!(Action::TakeScreenshot.rule().call, DriverCall::ScreenshotBase64);
}
