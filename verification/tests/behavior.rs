use thirtyfour_actions::behavior::{
    not_found, rejection, Argument, ElementHandle, Outcome, Progress, Reply, Request, Stage, Value,
};
use thirtyfour_actions::catalog::{vocabulary, Acquisition, Action, DriverCall, ResultKind};
use thirtyfour_actions::model::{FieldDescriptor, GeneratedOperation};
use thirtyfour_actions::synthesize::operation;
use thirtyfour_actions::text::{contains_word, decimal};

fn generated(action: Action, field: &str) -> GeneratedOperation {
    let descriptor = FieldDescriptor {
        name: field.to_string(),
        locator: format!("By::Id(\"{}\")", field),
        actions: vec![],
    };
    operation(action, &descriptor)
}

fn handle(id: u64) -> ElementHandle {
    ElementHandle { id }
}

fn found(id: u64) -> Reply {
    Reply::Answered(Value::OptionalElement(Some(handle(id))))
}

fn absent() -> Reply {
    Reply::Answered(Value::OptionalElement(None))
}

fn rejected(words: &str) -> Reply {
    Reply::Rejected(words.to_string())
}

fn failed(message: &str) -> Progress {
    Progress::Done(Outcome::Failed(message.to_string()))
}

fn returned(value: Value) -> Progress {
    Progress::Done(Outcome::Returned(value))
}

#[test]
fn click_on_an_absent_element_fails_with_not_found() {
    let click = generated(Action::Click, "loginButton");
    let argument = Argument::Nothing;
    assert_eq!(
        click.start(&argument),
        Progress::Ask {
            stage: Stage::Acquiring,
            request: Request::Query {
                call: DriverCall::FindFirst,
                locator: "By::Id(\"loginButton\")".to_string(),
                argument: Argument::Nothing,
            },
        }
    );
    assert_eq!(click.resume(&argument, Stage::Acquiring, absent()), failed("loginButton not found"));
    assert_eq!(
        click.resume(&argument, Stage::Acquiring, rejected("session lost")),
        failed("loginButton not found")
    );
}

#[test]
fn click_rejected_by_the_driver_fails_with_the_cause() {
    let click = generated(Action::Click, "loginButton");
    let argument = Argument::Nothing;
    let asked = click.resume(&argument, Stage::Acquiring, found(7));
    assert_eq!(
        asked,
        Progress::Ask {
            stage: Stage::Calling { element: handle(7) },
            request: Request::Element {
                call: DriverCall::Click,
                element: handle(7),
                argument: Argument::Nothing,
            },
        }
    );
    let stage = Stage::Calling { element: handle(7) };
    assert_eq!(
        click.resume(&argument, stage, rejected("element click intercepted")),
        failed("Failed to click loginButton: element click intercepted")
    );
    assert_eq!(click.resume(&argument, stage, Reply::Answered(Value::Marker)), returned(Value::Marker));
}

#[test]
fn enter_keys_forwards_the_text_unchanged() {
    let enter = generated(Action::EnterKeys, "email");
    for text in ["user@example.com", "", "  spaced\ttext\n", "\u{1F600} \"quoted\" \\"] {
        let argument = Argument::Text(text.to_string());
        let asked = enter.resume(&argument, Stage::Acquiring, found(1));
        assert_eq!(
            asked,
            Progress::Ask {
                stage: Stage::Calling { element: handle(1) },
                request: Request::Element {
                    call: DriverCall::SendKeys,
                    element: handle(1),
                    argument: Argument::Text(text.to_string()),
                },
            }
        );
    }
    let argument = Argument::Text("secret".to_string());
    assert_eq!(
        enter.resume(&argument, Stage::Calling { element: handle(1) }, rejected("not editable")),
        failed("Failed to send keys to email: not editable")
    );
}

#[test]
fn exists_is_false_on_absence_and_on_error_and_never_fails() {
    let exists = generated(Action::Exists, "banner");
    let argument = Argument::Nothing;
    assert_eq!(
        exists.start(&argument),
        Progress::Ask {
            stage: Stage::Acquiring,
            request: Request::Query {
                call: DriverCall::Exists,
                locator: "By::Id(\"banner\")".to_string(),
                argument: Argument::Nothing,
            },
        }
    );
    let no = returned(Value::Flag(false));
    assert_eq!(exists.resume(&argument, Stage::Acquiring, Reply::Answered(Value::Flag(false))), no);
    assert_eq!(exists.resume(&argument, Stage::Acquiring, rejected("no such window")), no);
    assert_eq!(
        exists.resume(&argument, Stage::Acquiring, Reply::Answered(Value::Flag(true))),
        returned(Value::Flag(true))
    );
    assert!(!exists.rule.can_fail());
}

#[test]
fn locate_treats_a_query_error_as_absent() {
    let locate = generated(Action::Locate, "banner");
    let argument = Argument::Nothing;
    assert_eq!(
        locate.resume(&argument, Stage::Acquiring, found(3)),
        returned(Value::OptionalElement(Some(handle(3))))
    );
    assert_eq!(
        locate.resume(&argument, Stage::Acquiring, absent()),
        returned(Value::OptionalElement(None))
    );
    assert_eq!(
        locate.resume(&argument, Stage::Acquiring, rejected("invalid selector")),
        returned(Value::OptionalElement(None))
    );
}

#[test]
fn every_operation_on_an_element_fails_the_same_way_when_it_is_absent() {
    for action in vocabulary().iter() {
        let op = generated(*action, "field");
        if op.rule.acquisition == Acquisition::Locate {
            let argument = Argument::Nothing;
            assert_eq!(op.resume(&argument, Stage::Acquiring, absent()), failed("field not found"));
            assert_eq!(
                op.resume(&argument, Stage::Acquiring, rejected("boom")),
                failed("field not found")
            );
            assert!(op.has_stage(Stage::Calling { element: handle(0) }));
        }
    }
    assert_eq!(not_found("field"), "field not found");
}

#[test]
fn every_rejection_names_the_field_and_ends_with_the_cause() {
    for action in vocabulary().iter() {
        let op = generated(*action, "someField");
        let stage = Stage::Calling { element: handle(1) };
        if op.has_stage(stage) {
            match op.resume(&Argument::Nothing, stage, rejected("the cause")) {
                Progress::Done(Outcome::Failed(message)) => {
                    assert!(message.contains("someField"), "{}", message);
                    assert!(message.ends_with(": the cause"), "{}", message);
                }
                other => panic!("{:?} went on as {:?}", action, other),
            }
        }
    }
}

#[test]
fn words_of_rejections() {
    let nothing = Argument::Nothing;
    let text = |t: &str| Argument::Text(t.to_string());
    assert_eq!(rejection(Action::Click, &nothing, "f", "c"), "Failed to click f: c");
    assert_eq!(rejection(Action::DoubleClick, &nothing, "f", "c"), "Failed to double-click f: c");
    assert_eq!(rejection(Action::RightClick, &nothing, "f", "c"), "Failed to right-click f: c");
    assert_eq!(rejection(Action::Clear, &nothing, "f", "c"), "Failed to clear f: c");
    assert_eq!(rejection(Action::Submit, &nothing, "f", "c"), "Failed to submit form f: c");
    assert_eq!(rejection(Action::Hover, &nothing, "f", "c"), "Failed to hover over f: c");
    assert_eq!(rejection(Action::DragTo, &nothing, "f", "c"), "Failed to drag f to target: c");
    assert_eq!(rejection(Action::GetText, &nothing, "f", "c"), "Failed to get text from f: c");
    assert_eq!(
        rejection(Action::GetAttribute, &text("href"), "f", "c"),
        "Failed to get attribute 'href' from f: c"
    );
    assert_eq!(rejection(Action::GetValue, &nothing, "f", "c"), "Failed to get value from f: c");
    assert_eq!(
        rejection(Action::GetCssValue, &text("color"), "f", "c"),
        "Failed to get CSS property 'color' from f: c"
    );
    assert_eq!(
        rejection(Action::HasClass, &text("active"), "f", "c"),
        "Failed to get class attribute from f: c"
    );
    assert_eq!(
        rejection(Action::IsDisplayed, &nothing, "f", "c"),
        "Failed to check if f is displayed: c"
    );
    assert_eq!(
        rejection(Action::IsSelected, &nothing, "f", "c"),
        "Failed to check if f is selected: c"
    );
    assert_eq!(
        rejection(Action::IsEnabled, &nothing, "f", "c"),
        "Failed to check if f is enabled: c"
    );
    assert_eq!(
        rejection(Action::SelectByText, &text("Red"), "f", "c"),
        "Failed to select text 'Red' in f: c"
    );
    assert_eq!(
        rejection(Action::SelectByValue, &text("r"), "f", "c"),
        "Failed to select value 'r' in f: c"
    );
    assert_eq!(
        rejection(Action::SelectByIndex, &Argument::Index(12), "f", "c"),
        "Failed to select index 12 in f: c"
    );
    assert_eq!(
        rejection(Action::GetSelectedText, &nothing, "f", "c"),
        "Failed to get selected option in f: c"
    );
    assert_eq!(rejection(Action::ScrollTo, &nothing, "f", "c"), "Failed to scroll to f: c");
    assert_eq!(
        rejection(Action::TakeScreenshot, &nothing, "f", "c"),
        "Failed to take screenshot of f: c"
    );
}

#[test]
fn values_are_returned_as_the_driver_gave_them() {
    let stage = Stage::Calling { element: handle(2) };
    let nothing = Argument::Nothing;
    let cases = vec![
        (Action::GetText, Value::Text("Welcome".to_string())),
        (Action::GetAttribute, Value::OptionalText(Some("https://example.com".to_string()))),
        (Action::GetAttribute, Value::OptionalText(None)),
        (Action::GetValue, Value::OptionalText(Some("42".to_string()))),
        (Action::GetCssValue, Value::Text("rgb(0, 0, 0)".to_string())),
        (Action::IsDisplayed, Value::Flag(true)),
        (Action::IsSelected, Value::Flag(false)),
        (Action::IsEnabled, Value::Flag(true)),
        (Action::TakeScreenshot, Value::Image("iVBORw0KGgo=".to_string())),
        (Action::Submit, Value::Marker),
        (Action::ScrollTo, Value::Marker),
    ];
    for (action, value) in cases {
        let op = generated(action, "f");
        let reply = Reply::Answered(value.clone());
        assert!(op.fits(&nothing, stage, &reply));
        assert_eq!(value.kind(), op.rule.result);
        assert_eq!(op.resume(&nothing, stage, reply), returned(value));
    }
}

#[test]
fn fixed_attributes_are_read_by_name() {
    let element = handle(4);
    let stage = Stage::Calling { element };
    let value = generated(Action::GetValue, "f").request(&Argument::Nothing, stage);
    assert_eq!(
        value,
        Request::Element {
            call: DriverCall::Attribute,
            element,
            argument: Argument::Text("value".to_string()),
        }
    );
    let class = generated(Action::HasClass, "f").request(&Argument::Text("active".to_string()), stage);
    assert_eq!(
        class,
        Request::Element {
            call: DriverCall::Attribute,
            element,
            argument: Argument::Text("class".to_string()),
        }
    );
}

#[test]
fn arguments_are_forwarded_to_the_wrapped_call() {
    let element = handle(4);
    let stage = Stage::Calling { element };
    let cases = vec![
        (Action::DragTo, Argument::Element(handle(9)), DriverCall::DragAndDrop),
        (Action::GetAttribute, Argument::Text("href".to_string()), DriverCall::Attribute),
        (Action::GetCssValue, Argument::Text("color".to_string()), DriverCall::CssValue),
        (Action::SelectByText, Argument::Text("Red".to_string()), DriverCall::SelectByVisibleText),
        (Action::SelectByValue, Argument::Text("r".to_string()), DriverCall::SelectByValue),
        (Action::SelectByIndex, Argument::Index(3), DriverCall::SelectByIndex),
    ];
    for (action, argument, call) in cases {
        let op = generated(action, "f");
        assert_eq!(
            op.request(&argument, stage),
            Request::Element { call, element, argument: argument.duplicate() }
        );
    }
}

#[test]
fn has_class_looks_for_the_word_in_the_class_list() {
    let op = generated(Action::HasClass, "button");
    let stage = Stage::Calling { element: handle(1) };
    let wanted = Argument::Text("active".to_string());
    let classes = |text: &str| Reply::Answered(Value::OptionalText(Some(text.to_string())));
    assert_eq!(op.resume(&wanted, stage, classes("btn active large")), returned(Value::Flag(true)));
    assert_eq!(op.resume(&wanted, stage, classes("active")), returned(Value::Flag(true)));
    assert_eq!(op.resume(&wanted, stage, classes("btn\tactive\n")), returned(Value::Flag(true)));
    assert_eq!(op.resume(&wanted, stage, classes("inactive activex")), returned(Value::Flag(false)));
    assert_eq!(op.resume(&wanted, stage, classes("")), returned(Value::Flag(false)));
    assert_eq!(
        op.resume(&wanted, stage, Reply::Answered(Value::OptionalText(None))),
        returned(Value::Flag(false))
    );
    assert_eq!(
        op.resume(&wanted, stage, rejected("stale element")),
        failed("Failed to get class attribute from button: stale element")
    );
}

#[test]
fn wait_for_hands_the_timeout_to_the_driver() {
    let op = generated(Action::WaitFor, "spinner");
    let argument = Argument::Seconds(30);
    assert_eq!(
        op.start(&argument),
        Progress::Ask {
            stage: Stage::Acquiring,
            request: Request::Query {
                call: DriverCall::WaitVisible,
                locator: "By::Id(\"spinner\")".to_string(),
                argument: Argument::Seconds(30),
            },
        }
    );
    assert_eq!(
        op.resume(&argument, Stage::Acquiring, Reply::Answered(Value::Element(handle(5)))),
        returned(Value::Element(handle(5)))
    );
    assert_eq!(
        op.resume(&argument, Stage::Acquiring, rejected("timeout after 30s")),
        failed("Timed out waiting for spinner to be visible: timeout after 30s")
    );
    assert!(!op.has_stage(Stage::Calling { element: handle(5) }));
}

#[test]
fn wait_until_clickable_fails_on_a_disabled_element() {
    let op = generated(Action::WaitUntilClickable, "save");
    let argument = Argument::Seconds(5);
    let element = handle(8);
    let stage = Stage::Calling { element };
    assert_eq!(
        op.resume(&argument, Stage::Acquiring, Reply::Answered(Value::Element(element))),
        Progress::Ask {
            stage,
            request: Request::Element {
                call: DriverCall::IsEnabled,
                element,
                argument: Argument::Nothing,
            },
        }
    );
    assert_eq!(
        op.resume(&argument, stage, Reply::Answered(Value::Flag(true))),
        returned(Value::Element(element))
    );
    assert_eq!(
        op.resume(&argument, stage, Reply::Answered(Value::Flag(false))),
        failed("Element save is not clickable (disabled)")
    );
    assert_eq!(
        op.resume(&argument, stage, rejected("stale")),
        failed("Failed to check if save is enabled: stale")
    );
    assert_eq!(
        op.resume(&argument, Stage::Acquiring, rejected("timeout")),
        failed("Timed out waiting for save to be visible: timeout")
    );
}

#[test]
fn get_selected_text_reads_the_text_of_the_selected_option() {
    let op = generated(Action::GetSelectedText, "colour");
    let nothing = Argument::Nothing;
    let select = handle(1);
    let option = handle(2);
    assert_eq!(
        op.resume(&nothing, Stage::Acquiring, found(1)),
        Progress::Ask {
            stage: Stage::Calling { element: select },
            request: Request::Element {
                call: DriverCall::FirstSelectedOption,
                element: select,
                argument: Argument::Nothing,
            },
        }
    );
    assert_eq!(
        op.resume(&nothing, Stage::Calling { element: select }, Reply::Answered(Value::Element(option))),
        Progress::Ask {
            stage: Stage::FollowingUp { element: option },
            request: Request::Element {
                call: DriverCall::Text,
                element: option,
                argument: Argument::Nothing,
            },
        }
    );
    let following = Stage::FollowingUp { element: option };
    assert!(op.has_stage(following));
    assert_eq!(
        op.resume(&nothing, following, Reply::Answered(Value::Text("Red".to_string()))),
        returned(Value::Text("Red".to_string()))
    );
    assert_eq!(
        op.resume(&nothing, following, rejected("gone")),
        failed("Failed to get text of selected option in colour: gone")
    );
    assert_eq!(
        op.resume(&nothing, Stage::Calling { element: select }, rejected("no option")),
        failed("Failed to get selected option in colour: no option")
    );
    assert!(!generated(Action::Click, "f").has_stage(following));
}

#[test]
fn replies_fit_the_call_that_was_asked_for() {
    let click = generated(Action::Click, "f");
    let nothing = Argument::Nothing;
    assert!(click.fits(&nothing, Stage::Acquiring, &absent()));
    assert!(click.fits(&nothing, Stage::Acquiring, &rejected("x")));
    assert!(!click.fits(&nothing, Stage::Acquiring, &Reply::Answered(Value::Flag(true))));
    let stage = Stage::Calling { element: handle(1) };
    assert!(click.fits(&nothing, stage, &Reply::Answered(Value::Marker)));
    assert!(!click.fits(&nothing, stage, &Reply::Answered(Value::Text("x".to_string()))));
    assert_eq!(DriverCall::FindFirst.yields(), ResultKind::OptionalElement);
    assert_eq!(DriverCall::Attribute.yields(), ResultKind::OptionalText);
    assert_eq!(DriverCall::WaitVisible.yields(), ResultKind::Element);
    assert_eq!(DriverCall::ScreenshotBase64.yields(), ResultKind::Image);
    assert_eq!(DriverCall::Click.yields(), ResultKind::Marker);
}

#[test]
fn numbers_in_decimal() {
    assert_eq!(decimal(0), "0");
    assert_eq!(decimal(7), "7");
    assert_eq!(decimal(10), "10");
    assert_eq!(decimal(12), "12");
    assert_eq!(decimal(1005), "1005");
    assert_eq!(decimal(u64::MAX), "18446744073709551615");
    assert_eq!(Argument::Index(42).text(), "42");
    assert_eq!(Argument::Seconds(3).text(), "3");
    assert_eq!(Argument::Text("as is".to_string()).text(), "as is");
    assert_eq!(Argument::Nothing.text(), "");
}

#[test]
fn words_of_a_list() {
    assert!(contains_word("a b c", "b"));
    assert!(contains_word("a b c", "a"));
    assert!(contains_word("a b c", "c"));
    assert!(contains_word("  alpha \u{a0} beta\u{3000}gamma ", "beta"));
    assert!(contains_word("\u{2003}alpha", "alpha"));
    assert!(!contains_word("a b c", "d"));
    assert!(!contains_word("a b c", "a b"));
    assert!(!contains_word("alpha", "alph"));
    assert!(!contains_word("alpha", "lpha"));
    assert!(!contains_word("a b", ""));
    assert!(!contains_word("", ""));
    assert!(!contains_word("", "a"));
    for text in ["btn active", " x\ty\nz ", "caf\u{e9} \u{1F600}", "one"] {
        for word in text.split_whitespace() {
            assert!(contains_word(text, word));
        }
        assert_eq!(contains_word(text, "y"), text.split_whitespace().any(|w| w == "y"));
    }
}
