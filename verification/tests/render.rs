use thirtyfour_actions::catalog::Action;
use thirtyfour_actions::impl_thirtyfour_actions;
use thirtyfour_actions::model::{Attribute, FieldDeclaration, TypeDeclaration, TypeKind};

fn field(name: &str, arguments: &str) -> FieldDeclaration {
    FieldDeclaration {
        name: Some(name.to_string()),
        locator: format!("self.{}.clone()", name),
        attributes: vec![Attribute {
            path: "thirtyfour_actions".to_string(),
            arguments: arguments.to_string(),
        }],
    }
}

fn every_action() -> String {
    let names: Vec<&str> = [
        Action::Click,
        Action::DoubleClick,
        Action::RightClick,
        Action::EnterKeys,
        Action::Clear,
        Action::Submit,
        Action::Hover,
        Action::DragTo,
        Action::GetText,
        Action::GetAttribute,
        Action::GetValue,
        Action::GetCssValue,
        Action::HasClass,
        Action::IsDisplayed,
        Action::IsSelected,
        Action::IsEnabled,
        Action::Exists,
        Action::SelectByText,
        Action::SelectByValue,
        Action::SelectByIndex,
        Action::GetSelectedText,
        Action::ScrollTo,
        Action::WaitFor,
        Action::WaitUntilClickable,
        Action::TakeScreenshot,
    ]
    .iter()
    .map(|action| action.name())
    .collect();
    format!("methods({})", names.join(", "))
}

fn method_names(text: &str) -> Vec<String> {
    let block: syn::ItemImpl = syn::parse_str(text).expect("the text is an impl block");
    block
        .items
        .iter()
        .map(|item| match item {
            syn::ImplItem::Fn(method) => method.sig.ident.to_string(),
            _ => panic!("the block holds methods only"),
        })
        .collect()
}

#[test]
fn rendered_text_is_an_impl_block_of_the_type() {
    let declaration = TypeDeclaration {
        name: "LoginPage".to_string(),
        kind: TypeKind::Struct,
        fields: vec![field("loginButton", "methods(click)")],
    };
    let set = impl_thirtyfour_actions(&declaration).unwrap();
    let text = set.render();
    println!("{}", text);
    let block: syn::ItemImpl = syn::parse_str(&text).expect("the text is an impl block");
    match &*block.self_ty {
        syn::Type::Path(path) => assert!(path.path.is_ident("LoginPage")),
        _ => panic!("the block is for a named type"),
    }
    assert_eq!(method_names(&text), vec!["locate_loginButton", "click_loginButton"]);
}

#[test]
fn every_action_renders_as_a_method() {
    let declaration = TypeDeclaration {
        name: "Page".to_string(),
        kind: TypeKind::Struct,
        fields: vec![field("item", &every_action())],
    };
    let set = impl_thirtyfour_actions(&declaration).unwrap();
    assert_eq!(set.operations.len(), 26);
    let text = set.render();
    println!("{}", text);
    let expected: Vec<String> = set.operations.iter().map(|o| o.name.clone()).collect();
    assert_eq!(method_names(&text), expected);
    let block: syn::ItemImpl = syn::parse_str(&text).unwrap();
    for item in &block.items {
        match item {
            syn::ImplItem::Fn(method) => {
                assert!(method.sig.asyncness.is_some());
                assert!(matches!(method.vis, syn::Visibility::Public(_)));
            }
            _ => panic!("the block holds methods only"),
        }
    }
}

#[test]
fn empty_record_renders_an_empty_block() {
    let declaration =
        TypeDeclaration { name: "Empty".to_string(), kind: TypeKind::Struct, fields: vec![] };
    let set = impl_thirtyfour_actions(&declaration).unwrap();
    assert_eq!(set.render(), "impl Empty {\n}\n");
}

#[test]
fn the_locator_is_written_into_the_query_as_it_is() {
    let mut declaration = TypeDeclaration {
        name: "Page".to_string(),
        kind: TypeKind::Struct,
        fields: vec![field("menu", "methods(exists, wait_for)")],
    };
    declaration.fields[0].locator = "thirtyfour::By::Css(\"#menu > li\")".to_string();
    let set = impl_thirtyfour_actions(&declaration).unwrap();
    for operation in set.operations.iter() {
        let text = operation.render();
        assert!(text.contains("driver.query(thirtyfour::By::Css(\"#menu > li\"))"), "{}", text);
    }
}

#[test]
fn click_renders_as_a_method_that_goes_through_the_base_operation() {
    let declaration = TypeDeclaration {
        name: "LoginPage".to_string(),
        kind: TypeKind::Struct,
        fields: vec![field("loginButton", "methods(click)")],
    };
    let set = impl_thirtyfour_actions(&declaration).unwrap();
    assert_eq!(
        set.operations[1].render(),
        "    /// Click on the web element.\n    \
         pub async fn click_loginButton(&self, driver: &thirtyfour::WebDriver) -> anyhow::Result<()> {\n        \
         match self.locate_loginButton(driver).await {\n            \
         Some(element) => {\n                \
         element.click()\n                    \
         .await\n                    \
         .map_err(|e| anyhow::anyhow!(\"Failed to click {}: {}\", \"loginButton\", e))?;\n                \
         Ok(())\n            \
         },\n            \
         None => Err(anyhow::anyhow!(\"{} not found\", \"loginButton\")),\n        \
         }\n    \
         }\n"
    );
    assert_eq!(
        set.operations[0].render(),
        "    /// Locate the web element in the DOM: `Some` if found, `None` otherwise.\n    \
         pub async fn locate_loginButton(&self, driver: &thirtyfour::WebDriver) -> Option<thirtyfour::WebElement> {\n        \
         match driver.query(self.loginButton.clone()).first_opt().await {\n            \
         Ok(Some(element)) => Some(element),\n            \
         Ok(None) => None,\n            \
         Err(e) => {\n                \
         log::error!(\"Error querying element {}: {}\", \"loginButton\", e);\n                \
         None\n            \
         }\n        \
         }\n    \
         }\n"
    );
}

#[test]
fn signatures_take_the_extra_parameter() {
    let declaration = TypeDeclaration {
        name: "Page".to_string(),
        kind: TypeKind::Struct,
        fields: vec![field("item", &every_action())],
    };
    let set = impl_thirtyfour_actions(&declaration).unwrap();
    let block: syn::ItemImpl = syn::parse_str(&set.render()).unwrap();
    for (item, operation) in block.items.iter().zip(set.operations.iter()) {
        let method = match item {
            syn::ImplItem::Fn(method) => method,
            _ => panic!("the block holds methods only"),
        };
        let expected = if operation.rule.parameter.is_some() { 3 } else { 2 };
        assert_eq!(method.sig.inputs.len(), expected, "{}", operation.name);
        assert!(matches!(method.sig.inputs[0], syn::FnArg::Receiver(_)));
    }
}

#[test]
fn the_existence_check_returns_a_plain_truth_value() {
    let declaration = TypeDeclaration {
        name: "Page".to_string(),
        kind: TypeKind::Struct,
        fields: vec![field("banner", "exists")],
    };
    let set = impl_thirtyfour_actions(&declaration).unwrap();
    let text = set.operations[1].render();
    assert!(text.contains("pub async fn exists_banner(&self, driver: &thirtyfour::WebDriver) -> bool {"));
    assert!(text.contains("Err(_) => false"));
    assert!(!text.contains("anyhow"));
}
