use thirtyfour_actions::catalog::{vocabulary, Action, ParameterKind};
use thirtyfour_actions::error::GenerationError;
use thirtyfour_actions::extract::extract;
use thirtyfour_actions::impl_thirtyfour_actions;
use thirtyfour_actions::model::{
    Attribute, FieldDeclaration, FieldDescriptor, GeneratedOperation, PageObjectType,
    TypeDeclaration, TypeKind,
};
use thirtyfour_actions::synthesize::{operation, synthesize, synthesize_field};

fn field(name: &str, arguments: &[&str]) -> FieldDeclaration {
    FieldDeclaration {
        name: Some(name.to_string()),
        locator: format!("self.{}.clone()", name),
        attributes: arguments
            .iter()
            .map(|text| Attribute {
                path: "thirtyfour_actions".to_string(),
                arguments: text.to_string(),
            })
            .collect(),
    }
}

fn record(name: &str, fields: Vec<FieldDeclaration>) -> TypeDeclaration {
    TypeDeclaration { name: name.to_string(), kind: TypeKind::Struct, fields }
}

fn descriptor(name: &str, actions: &[&str]) -> FieldDescriptor {
    FieldDescriptor {
        name: name.to_string(),
        locator: format!("By::Id(\"{}\")", name),
        actions: actions.iter().map(|action| action.to_string()).collect(),
    }
}

fn names(declaration: &TypeDeclaration) -> Vec<String> {
    impl_thirtyfour_actions(declaration)
        .expect("generation succeeds")
        .operations
        .iter()
        .map(|operation| operation.name.clone())
        .collect()
}

#[test]
fn login_button_gets_locate_and_click() {
    let declaration = record("LoginPage", vec![field("loginButton", &["methods(click)"])]);
    let set = impl_thirtyfour_actions(&declaration).unwrap();
    assert_eq!(set.owner, "LoginPage");
    assert_eq!(
        set.operations,
        vec![
            GeneratedOperation {
                name: "locate_loginButton".to_string(),
                field: "loginButton".to_string(),
                locator: "self.loginButton.clone()".to_string(),
                rule: Action::Locate.rule(),
            },
            GeneratedOperation {
                name: "click_loginButton".to_string(),
                field: "loginButton".to_string(),
                locator: "self.loginButton.clone()".to_string(),
                rule: Action::Click.rule(),
            },
        ]
    );
}

#[test]
fn email_gets_locate_click_and_enter_keys() {
    let declaration = record("LoginPage", vec![field("email", &["methods(click, enter_keys)"])]);
    let set = impl_thirtyfour_actions(&declaration).unwrap();
    let actions: Vec<Action> = set.operations.iter().map(|o| o.rule.action).collect();
    assert_eq!(actions, vec![Action::Locate, Action::Click, Action::EnterKeys]);
    assert_eq!(names(&declaration), vec!["locate_email", "click_email", "enter_keys_email"]);
    assert_eq!(set.operations[2].rule.parameter.map(|p| p.kind()), Some(ParameterKind::Text));
}

#[test]
fn banner_gets_locate_and_exists() {
    let declaration = record("HomePage", vec![field("banner", &["methods(exists)"])]);
    assert_eq!(names(&declaration), vec!["locate_banner", "exists_banner"]);
}

#[test]
fn bogus_action_fails_the_whole_type() {
    let declaration = record(
        "SearchPage",
        vec![field("query", &["methods(click)"]), field("search", &["methods(bogus_action)"])],
    );
    let error = impl_thirtyfour_actions(&declaration).unwrap_err();
    assert_eq!(
        error,
        GenerationError::UnknownAction {
            owner: "SearchPage".to_string(),
            field: "search".to_string(),
            action: "bogus_action".to_string(),
        }
    );
    let message = error.message();
    assert_eq!(
        message,
        "Unsupported thirtyfour_actions method: 'bogus_action' for field search of SearchPage"
    );
    assert!(message.contains("SearchPage"));
    assert!(message.contains("search"));
    assert!(message.contains("bogus_action"));
}

#[test]
fn every_field_gets_exactly_one_base_operation() {
    let declaration = record(
        "Page",
        vec![
            field("a", &[]),
            field("b", &["methods(click, get_text)"]),
            field("c", &["exists"]),
        ],
    );
    let set = impl_thirtyfour_actions(&declaration).unwrap();
    for name in ["a", "b", "c"] {
        let bases: Vec<&GeneratedOperation> = set
            .operations
            .iter()
            .filter(|o| o.field == name && o.rule.action == Action::Locate)
            .collect();
        assert_eq!(bases.len(), 1);
        assert_eq!(bases[0].name, format!("locate_{}", name));
    }
    let all = set.operations.iter().filter(|o| o.rule.action == Action::Locate).count();
    assert_eq!(all, 3);
}

#[test]
fn one_operation_for_each_requested_action_and_none_besides() {
    let requested = ["get_text", "click", "drag_to", "wait_for"];
    let set = synthesize_field("Page", &descriptor("card", &requested)).unwrap();
    assert_eq!(set.len(), 1 + requested.len());
    for name in requested {
        let found: Vec<&GeneratedOperation> =
            set.iter().filter(|o| o.rule.action.name() == name).collect();
        assert_eq!(found.len(), 1);
        assert_eq!(found[0].name, found[0].rule.action.method_name("card"));
        assert_eq!(found[0].rule, found[0].rule.action.rule());
    }
    for operation in set.iter().skip(1) {
        assert!(requested.contains(&operation.rule.action.name()));
    }
    let names: Vec<&str> = set.iter().map(|o| o.name.as_str()).collect();
    assert_eq!(
        names,
        vec!["locate_card", "get_text_card", "click_card", "drag_card_to", "wait_for_card"]
    );
}

#[test]
fn a_field_can_request_the_whole_vocabulary() {
    let all: Vec<&str> = vocabulary().iter().map(|action| action.name()).collect();
    let set = synthesize_field("Page", &descriptor("item", &all)).unwrap();
    assert_eq!(set.len(), 26);
    for (position, action) in vocabulary().iter().enumerate() {
        assert_eq!(set[position + 1], operation(*action, &descriptor("item", &all)));
    }
}

#[test]
fn repeated_requests_generate_one_operation() {
    let set =
        synthesize_field("Page", &descriptor("box", &["click", "get_text", "click", "click"]))
            .unwrap();
    let generated: Vec<&str> = set.iter().map(|o| o.name.as_str()).collect();
    assert_eq!(generated, vec!["locate_box", "click_box", "get_text_box"]);
    let declaration = record("Page", vec![field("box", &["methods(click)", "methods(click)"])]);
    assert_eq!(names(&declaration), vec!["locate_box", "click_box"]);
}

#[test]
fn operations_come_field_by_field_in_declaration_order() {
    let declaration = record(
        "Page",
        vec![
            field("second", &["methods(submit, clear)"]),
            field("first", &["methods(hover)"]),
            field("third", &[]),
        ],
    );
    assert_eq!(
        names(&declaration),
        vec![
            "locate_second",
            "submit_second",
            "clear_second",
            "locate_first",
            "hover_first",
            "locate_third",
        ]
    );
}

#[test]
fn locator_reaches_every_operation_untouched() {
    let set = synthesize_field("Page", &descriptor("menu", &["click", "exists"])).unwrap();
    for operation in set.iter() {
        assert_eq!(operation.locator, "By::Id(\"menu\")");
        assert_eq!(operation.field, "menu");
    }
}

#[test]
fn generated_names_are_unique() {
    let declaration = record(
        "Page",
        vec![
            field("a", &["methods(click, drag_to, get_text)"]),
            field("click_a", &["methods(click, drag_to)"]),
            field("a_to", &["methods(drag_to, click)"]),
        ],
    );
    let mut all = names(&declaration);
    let count = all.len();
    assert_eq!(count, 10);
    all.sort();
    all.dedup();
    assert_eq!(all.len(), count);
}

#[test]
fn unknown_action_generates_nothing_even_after_valid_ones() {
    let result = synthesize_field("Page", &descriptor("box", &["click", "clik", "get_text"]));
    assert_eq!(
        result,
        Err(GenerationError::UnknownAction {
            owner: "Page".to_string(),
            field: "box".to_string(),
            action: "clik".to_string(),
        })
    );
}

#[test]
fn the_first_unknown_action_of_the_first_failing_field_is_reported() {
    let ty = PageObjectType {
        name: "Page".to_string(),
        fields: vec![
            descriptor("fine", &["click"]),
            descriptor("broken", &["get_text", "nope", "neither"]),
            descriptor("worse", &["bad"]),
        ],
    };
    assert_eq!(
        synthesize(&ty),
        Err(GenerationError::UnknownAction {
            owner: "Page".to_string(),
            field: "broken".to_string(),
            action: "nope".to_string(),
        })
    );
}

#[test]
fn the_base_operation_cannot_be_requested_by_a_field() {
    for name in ["locate", "query"] {
        let declaration = record("Page", vec![field("box", &[name])]);
        assert_eq!(
            impl_thirtyfour_actions(&declaration),
            Err(GenerationError::UnknownAction {
                owner: "Page".to_string(),
                field: "box".to_string(),
                action: name.to_string(),
            })
        );
    }
}

#[test]
fn failures_come_in_the_order_of_the_fields() {
    let declaration = record(
        "Page",
        vec![field("first", &["methods(nope)"]), field("second", &["methods(click"])],
    );
    assert_eq!(
        impl_thirtyfour_actions(&declaration),
        Err(GenerationError::UnknownAction {
            owner: "Page".to_string(),
            field: "first".to_string(),
            action: "nope".to_string(),
        })
    );
    let declaration = record(
        "Page",
        vec![field("first", &["methods(nope)", "methods(click"]), field("second", &[])],
    );
    assert_eq!(
        impl_thirtyfour_actions(&declaration),
        Err(GenerationError::MalformedActionList {
            owner: "Page".to_string(),
            field: "first".to_string(),
            text: "methods(click".to_string(),
        })
    );
}

#[test]
fn types_that_are_no_records_get_nothing() {
    for kind in [TypeKind::Enum, TypeKind::Union] {
        let declaration = TypeDeclaration { name: "Choice".to_string(), kind, fields: vec![] };
        let error = impl_thirtyfour_actions(&declaration).unwrap_err();
        assert_eq!(error, GenerationError::NotARecord { owner: "Choice".to_string() });
        assert_eq!(
            error.message(),
            "ImplThirtyfourActions can only be derived for structs with named fields, \
             which Choice is not"
        );
    }
    let mut tuple = record("Pair", vec![field("a", &["methods(nope)"]), field("b", &[])]);
    tuple.fields[1].name = None;
    assert_eq!(
        impl_thirtyfour_actions(&tuple),
        Err(GenerationError::NotARecord { owner: "Pair".to_string() })
    );
}

#[test]
fn record_without_fields_gets_an_empty_set() {
    let set = impl_thirtyfour_actions(&record("Empty", vec![])).unwrap();
    assert_eq!(set.owner, "Empty");
    assert!(set.operations.is_empty());
}

#[test]
fn generating_twice_gives_the_same_output() {
    let declaration = record(
        "Page",
        vec![
            field("email", &["methods(click, enter_keys, get_attribute)"]),
            field("banner", &["exists, wait_for"]),
        ],
    );
    let first = impl_thirtyfour_actions(&declaration).unwrap();
    let second = impl_thirtyfour_actions(&declaration.clone()).unwrap();
    assert_eq!(first, second);
    assert_eq!(first.render().into_bytes(), second.render().into_bytes());
    let failing = record("Page", vec![field("email", &["methods(clack)"])]);
    assert_eq!(impl_thirtyfour_actions(&failing), impl_thirtyfour_actions(&failing.clone()));
}

#[test]
fn generation_goes_by_the_description() {
    let declaration = record(
        "Page",
        vec![field("email", &["methods(click)", "enter_keys"]), field("banner", &["(exists)"])],
    );
    let ty = extract(&declaration).unwrap();
    assert_eq!(synthesize(&ty), impl_thirtyfour_actions(&declaration));
    let failing = record("Page", vec![field("email", &["methods(click, clack)"])]);
    let ty = extract(&failing).unwrap();
    assert_eq!(synthesize(&ty), impl_thirtyfour_actions(&failing));
    assert!(synthesize(&ty).is_err());
}
