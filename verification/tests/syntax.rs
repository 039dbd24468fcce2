use thirtyfour_actions::syntax::ElementMethods;

fn parsed(text: &str) -> Option<Vec<String>> {
    ElementMethods::parse(text).map(|list| list.methods)
}

fn names(list: &[&str]) -> Option<Vec<String>> {
    Some(list.iter().map(|name| name.to_string()).collect())
}

#[test]
fn keyword_form() {
    assert_eq!(parsed("methods(click, enter_keys)"), names(&["click", "enter_keys"]));
    assert_eq!(parsed("methods(click)"), names(&["click"]));
}

#[test]
fn parenthesized_form_without_keyword() {
    assert_eq!(parsed("(click, enter_keys)"), names(&["click", "enter_keys"]));
}

#[test]
fn textual_form() {
    assert_eq!(parsed("click, enter_keys"), names(&["click", "enter_keys"]));
    assert_eq!(parsed("click"), names(&["click"]));
}

#[test]
fn both_forms_hold_the_same_names() {
    for list in ["click, enter_keys", " get_text ,exists, ", "", "a,b,c", "click, click"] {
        let plain = parsed(list);
        assert!(plain.is_some());
        assert_eq!(parsed(&format!("methods({})", list)), plain);
        assert_eq!(parsed(&format!("({})", list)), plain);
    }
    for list in ["click enter_keys", "a,,b", ",", "9lives"] {
        assert_eq!(parsed(list), None);
        assert_eq!(parsed(&format!("methods({})", list)), None);
        assert_eq!(parsed(&format!("({})", list)), None);
    }
}

#[test]
fn order_and_repetitions_are_kept() {
    assert_eq!(
        parsed("methods(get_text, click, get_text)"),
        names(&["get_text", "click", "get_text"])
    );
}

#[test]
fn blanks_are_ignored() {
    assert_eq!(parsed("  methods ( click ,\n\tenter_keys )  "), names(&["click", "enter_keys"]));
    assert_eq!(parsed("methods (click , enter_keys)"), names(&["click", "enter_keys"]));
    assert_eq!(parsed(" click ,enter_keys\r\n"), names(&["click", "enter_keys"]));
}

#[test]
fn one_trailing_comma_is_allowed() {
    assert_eq!(parsed("methods(click, enter_keys,)"), names(&["click", "enter_keys"]));
    assert_eq!(parsed("click,"), names(&["click"]));
    assert_eq!(parsed("click, ,"), None);
    assert_eq!(parsed("click,,"), None);
}

#[test]
fn an_empty_list_requests_nothing() {
    assert_eq!(parsed("methods()"), names(&[]));
    assert_eq!(parsed("methods( )"), names(&[]));
    assert_eq!(parsed("()"), names(&[]));
    assert_eq!(parsed(""), names(&[]));
    assert_eq!(parsed("   "), names(&[]));
}

#[test]
fn names_are_bare_identifiers() {
    assert_eq!(parsed("_private, a1, B_2"), names(&["_private", "a1", "B_2"]));
    assert_eq!(parsed("1a"), None);
    assert_eq!(parsed("a-b"), None);
    assert_eq!(parsed("\"click\""), None);
    assert_eq!(parsed("click()"), None);
    assert_eq!(parsed("cl\u{e9}"), None);
    assert_eq!(parsed("click\u{a0}"), None);
}

#[test]
fn malformed_lists_are_refused() {
    assert_eq!(parsed("methods(click"), None);
    assert_eq!(parsed("methods click)"), None);
    assert_eq!(parsed("click)"), None);
    assert_eq!(parsed("(click"), None);
    assert_eq!(parsed("methods(click) extra"), None);
    assert_eq!(parsed("methods(click)(enter_keys)"), None);
    assert_eq!(parsed("methods((click))"), None);
    assert_eq!(parsed("methods(,)"), None);
    assert_eq!(parsed("methods(, click)"), None);
    assert_eq!(parsed("click enter_keys"), None);
    assert_eq!(parsed("click; enter_keys"), None);
    assert_eq!(parsed("actions(click)"), None);
}

#[test]
fn the_keyword_alone_is_a_name() {
    assert_eq!(parsed("methods"), names(&["methods"]));
    assert_eq!(parsed("methods, click"), names(&["methods", "click"]));
    assert_eq!(parsed("methodsx(click)"), None);
}
