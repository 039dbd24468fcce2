use thirtyfour_actions::error::GenerationError;
use thirtyfour_actions::extract::{extract, extract_field, is_action_attribute, is_record};
use thirtyfour_actions::model::{
    Attribute, FieldDeclaration, FieldDescriptor, PageObjectType, TypeDeclaration, TypeKind,
};

fn attribute(path: &str, arguments: &str) -> Attribute {
    Attribute { path: path.to_string(), arguments: arguments.to_string() }
}

fn declared(name: Option<&str>, attributes: Vec<Attribute>) -> FieldDeclaration {
    FieldDeclaration {
        name: name.map(|name| name.to_string()),
        locator: "By::Id(\"x\")".to_string(),
        attributes,
    }
}

fn strings(list: &[&str]) -> Vec<String> {
    list.iter().map(|name| name.to_string()).collect()
}

#[test]
fn field_without_attributes_requests_nothing() {
    let field = declared(Some("title"), vec![]);
    assert_eq!(
        extract_field("Page", &field),
        Ok(FieldDescriptor {
            name: "title".to_string(),
            locator: "By::Id(\"x\")".to_string(),
            actions: vec![],
        })
    );
}

#[test]
fn actions_of_all_attributes_in_order() {
    let field = declared(
        Some("email"),
        vec![
            attribute("thirtyfour_actions", "methods(click, enter_keys)"),
            attribute("doc", "= \"the email box\""),
            attribute("thirtyfour_actions", "get_text, click"),
        ],
    );
    let descriptor = extract_field("LoginPage", &field).unwrap();
    assert_eq!(descriptor.name, "email");
    assert_eq!(descriptor.actions, strings(&["click", "enter_keys", "get_text", "click"]));
}

#[test]
fn only_the_marker_attribute_requests_actions() {
    assert!(is_action_attribute(&attribute("thirtyfour_actions", "")));
    assert!(!is_action_attribute(&attribute("thirtyfour", "methods(click)")));
    assert!(!is_action_attribute(&attribute("serde", "rename = \"x\"")));
    assert!(!is_action_attribute(&attribute("", "")));
    let field = declared(Some("box"), vec![attribute("other", "this is (not a list")]);
    assert_eq!(extract_field("Page", &field).unwrap().actions, strings(&[]));
}

#[test]
fn locator_is_handed_on_as_it_is() {
    let mut field = declared(Some("box"), vec![]);
    field.locator = "  By::Css(\"#a > b\") /* kept */ ".to_string();
    assert_eq!(extract_field("Page", &field).unwrap().locator, "  By::Css(\"#a > b\") /* kept */ ");
}

#[test]
fn malformed_list_fails_the_field() {
    let field = declared(
        Some("search"),
        vec![
            attribute("thirtyfour_actions", "methods(click)"),
            attribute("thirtyfour_actions", "methods(click enter_keys)"),
            attribute("thirtyfour_actions", "methods(also bad"),
        ],
    );
    let error = extract_field("SearchPage", &field).unwrap_err();
    assert_eq!(
        error,
        GenerationError::MalformedActionList {
            owner: "SearchPage".to_string(),
            field: "search".to_string(),
            text: "methods(click enter_keys)".to_string(),
        }
    );
    assert_eq!(
        error.message(),
        "Failed to parse thirtyfour_actions attribute of field search of SearchPage: \
         expected a list of action names, found 'methods(click enter_keys)'"
    );
    assert_eq!(error.owner(), "SearchPage");
}

#[test]
fn field_without_a_name_is_no_field_of_a_record() {
    let field = declared(None, vec![attribute("thirtyfour_actions", "methods(click)")]);
    assert_eq!(
        extract_field("Pair", &field),
        Err(GenerationError::NotARecord { owner: "Pair".to_string() })
    );
}

#[test]
fn record_of_named_fields() {
    let declaration = TypeDeclaration {
        name: "LoginPage".to_string(),
        kind: TypeKind::Struct,
        fields: vec![
            declared(Some("email"), vec![attribute("thirtyfour_actions", "enter_keys")]),
            declared(Some("submit"), vec![attribute("thirtyfour_actions", "(click)")]),
        ],
    };
    assert!(is_record(&declaration));
    assert_eq!(
        extract(&declaration),
        Ok(PageObjectType {
            name: "LoginPage".to_string(),
            fields: vec![
                FieldDescriptor {
                    name: "email".to_string(),
                    locator: "By::Id(\"x\")".to_string(),
                    actions: strings(&["enter_keys"]),
                },
                FieldDescriptor {
                    name: "submit".to_string(),
                    locator: "By::Id(\"x\")".to_string(),
                    actions: strings(&["click"]),
                },
            ],
        })
    );
}

#[test]
fn types_that_are_no_records() {
    let not_a_record = Err(GenerationError::NotARecord { owner: "Shape".to_string() });
    for kind in [TypeKind::Enum, TypeKind::Union] {
        let declaration = TypeDeclaration { name: "Shape".to_string(), kind, fields: vec![] };
        assert!(!is_record(&declaration));
        assert_eq!(extract(&declaration), not_a_record);
    }
    let tuple = TypeDeclaration {
        name: "Shape".to_string(),
        kind: TypeKind::Struct,
        fields: vec![declared(Some("a"), vec![]), declared(None, vec![])],
    };
    assert!(!is_record(&tuple));
    assert_eq!(extract(&tuple), not_a_record);
}

#[test]
fn the_first_malformed_list_is_reported() {
    let declaration = TypeDeclaration {
        name: "Page".to_string(),
        kind: TypeKind::Struct,
        fields: vec![
            declared(Some("a"), vec![attribute("thirtyfour_actions", "click")]),
            declared(Some("b"), vec![attribute("thirtyfour_actions", "((")]),
            declared(Some("c"), vec![attribute("thirtyfour_actions", "))")]),
        ],
    };
    assert_eq!(
        extract(&declaration),
        Err(GenerationError::MalformedActionList {
            owner: "Page".to_string(),
            field: "b".to_string(),
            text: "((".to_string(),
        })
    );
}

#[test]
fn record_without_fields() {
    let declaration =
        TypeDeclaration { name: "Empty".to_string(), kind: TypeKind::Struct, fields: vec![] };
    assert_eq!(extract(&declaration), Ok(PageObjectType { name: "Empty".to_string(), fields: vec![] }));
}
