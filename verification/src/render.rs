//! The generated operations as source text: for each operation an asynchronous method of
//! the page object that takes the automation session, and all of them together as one
//! `impl` block of the type. The session belongs to the caller: the methods borrow it and
//! neither create nor close one. The locator is written into the driver call as it was
//! handed in.

use crate::behavior::{
    failure_head, failure_middle, failure_tail, spec_failure_head, spec_failure_middle,
    spec_failure_tail,
};
use crate::catalog::{Acquisition, Action, ActionRule, Parameter, ParameterKind, ResultKind};
use crate::model::{
    GeneratedMethodSet, GeneratedMethodSetView, GeneratedOperation, GeneratedOperationView,
};
use vstd::prelude::*;
use vstd::string::*;

verus! {

/// The line of documentation that the generated operation bears.
pub open spec fn spec_documentation(action: Action) -> Seq<char> {
    match action {
        Action::Locate => "Locate the web element in the DOM: `Some` if found, `None` otherwise."@,
        Action::Click => "Click on the web element."@,
        Action::DoubleClick => "Double-click on the web element."@,
        Action::RightClick => "Right-click (context click) on the web element."@,
        Action::EnterKeys => "Enter text into the web element."@,
        Action::Clear => "Clear input field content."@,
        Action::Submit => "Submit a form element."@,
        Action::Hover => "Hover over the web element (move mouse to it)."@,
        Action::DragTo => "Drag this element to another target element."@,
        Action::GetText => "Get the text content of the web element."@,
        Action::GetAttribute => "Get a specific attribute value from the web element."@,
        Action::GetValue => "Get the value attribute of a form control element."@,
        Action::GetCssValue => "Get a CSS property value of the web element."@,
        Action::HasClass => "Check if the element has a specific CSS class."@,
        Action::IsDisplayed => "Check if the web element is displayed."@,
        Action::IsSelected => "Check if the web element is selected."@,
        Action::IsEnabled => "Check if the web element is enabled."@,
        Action::Exists => "Check if the element exists in the DOM without throwing an error."@,
        Action::SelectByText => "Select an option from a dropdown by its visible text."@,
        Action::SelectByValue => "Select an option from a dropdown by its value attribute."@,
        Action::SelectByIndex => "Select an option from a dropdown by its index."@,
        Action::GetSelectedText => "Get the text of the currently selected option in a dropdown."@,
        Action::ScrollTo => "Scroll the element into view."@,
        Action::WaitFor => "Wait for the element to be present and visible with timeout."@,
        Action::WaitUntilClickable => "Wait until the element is clickable (visible and enabled)."@,
        Action::TakeScreenshot =>
            "Take a screenshot of just this element and return the PNG image data as base64."@,
    }
}

/// The line of documentation that the generated operation bears.
fn documentation(action: Action) -> (r: &'static str)
    ensures
        r@ == spec_documentation(action),
{
    match action {
        Action::Locate => "Locate the web element in the DOM: `Some` if found, `None` otherwise.",
        Action::Click => "Click on the web element.",
        Action::DoubleClick => "Double-click on the web element.",
        Action::RightClick => "Right-click (context click) on the web element.",
        Action::EnterKeys => "Enter text into the web element.",
        Action::Clear => "Clear input field content.",
        Action::Submit => "Submit a form element.",
        Action::Hover => "Hover over the web element (move mouse to it).",
        Action::DragTo => "Drag this element to another target element.",
        Action::GetText => "Get the text content of the web element.",
        Action::GetAttribute => "Get a specific attribute value from the web element.",
        Action::GetValue => "Get the value attribute of a form control element.",
        Action::GetCssValue => "Get a CSS property value of the web element.",
        Action::HasClass => "Check if the element has a specific CSS class.",
        Action::IsDisplayed => "Check if the web element is displayed.",
        Action::IsSelected => "Check if the web element is selected.",
        Action::IsEnabled => "Check if the web element is enabled.",
        Action::Exists => "Check if the element exists in the DOM without throwing an error.",
        Action::SelectByText => "Select an option from a dropdown by its visible text.",
        Action::SelectByValue => "Select an option from a dropdown by its value attribute.",
        Action::SelectByIndex => "Select an option from a dropdown by its index.",
        Action::GetSelectedText => "Get the text of the currently selected option in a dropdown.",
        Action::ScrollTo => "Scroll the element into view.",
        Action::WaitFor => "Wait for the element to be present and visible with timeout.",
        Action::WaitUntilClickable => "Wait until the element is clickable (visible and enabled).",
        Action::TakeScreenshot =>
            "Take a screenshot of just this element and return the PNG image data as base64.",
    }
}

/// The call that the generated operation makes on its element, as it is written.
pub open spec fn spec_call_text(action: Action) -> Seq<char> {
    match action {
        Action::Click => "element.click()"@,
        Action::DoubleClick => "driver.action_chain().double_click(&element).perform()"@,
        Action::RightClick => "driver.action_chain().context_click(&element).perform()"@,
        Action::EnterKeys => "element.send_keys(keys)"@,
        Action::Clear => "element.clear()"@,
        Action::Submit => "element.submit()"@,
        Action::Hover => "driver.action_chain().move_to_element(&element).perform()"@,
        Action::DragTo =>
            "driver.action_chain().drag_and_drop(&element, target_element).perform()"@,
        Action::GetText => "element.text()"@,
        Action::GetAttribute => "element.attr(attribute)"@,
        Action::GetValue => "element.attr(\"value\")"@,
        Action::GetCssValue => "element.css_value(property)"@,
        Action::HasClass => "element.attr(\"class\")"@,
        Action::IsDisplayed => "element.is_displayed()"@,
        Action::IsSelected => "element.is_selected()"@,
        Action::IsEnabled | Action::WaitUntilClickable => "element.is_enabled()"@,
        Action::SelectByText =>
            "thirtyfour::components::select::SelectElement::new(&element).select_by_visible_text(text)"@,
        Action::SelectByValue =>
            "thirtyfour::components::select::SelectElement::new(&element).select_by_value(value)"@,
        Action::SelectByIndex =>
            "thirtyfour::components::select::SelectElement::new(&element).select_by_index(index)"@,
        Action::GetSelectedText =>
            "thirtyfour::components::select::SelectElement::new(&element).first_selected_option()"@,
        Action::ScrollTo =>
            "driver.execute(\"arguments[0].scrollIntoView();\", vec![element.clone().into()])"@,
        Action::TakeScreenshot => "element.screenshot_as_base64()"@,
        _ => ""@,
    }
}

/// The call that the generated operation makes on its element, as it is written.
fn call_text(action: Action) -> (r: &'static str)
    ensures
        r@ == spec_call_text(action),
{
    match action {
        Action::Click => "element.click()",
        Action::DoubleClick => "driver.action_chain().double_click(&element).perform()",
        Action::RightClick => "driver.action_chain().context_click(&element).perform()",
        Action::EnterKeys => "element.send_keys(keys)",
        Action::Clear => "element.clear()",
        Action::Submit => "element.submit()",
        Action::Hover => "driver.action_chain().move_to_element(&element).perform()",
        Action::DragTo => "driver.action_chain().drag_and_drop(&element, target_element).perform()",
        Action::GetText => "element.text()",
        Action::GetAttribute => "element.attr(attribute)",
        Action::GetValue => "element.attr(\"value\")",
        Action::GetCssValue => "element.css_value(property)",
        Action::HasClass => "element.attr(\"class\")",
        Action::IsDisplayed => "element.is_displayed()",
        Action::IsSelected => "element.is_selected()",
        Action::IsEnabled | Action::WaitUntilClickable => "element.is_enabled()",
        Action::SelectByText =>
            "thirtyfour::components::select::SelectElement::new(&element).select_by_visible_text(text)",
        Action::SelectByValue =>
            "thirtyfour::components::select::SelectElement::new(&element).select_by_value(value)",
        Action::SelectByIndex =>
            "thirtyfour::components::select::SelectElement::new(&element).select_by_index(index)",
        Action::GetSelectedText =>
            "thirtyfour::components::select::SelectElement::new(&element).first_selected_option()",
        Action::ScrollTo =>
            "driver.execute(\"arguments[0].scrollIntoView();\", vec![element.clone().into()])",
        Action::TakeScreenshot => "element.screenshot_as_base64()",
        _ => "",
    }
}

/// The name of the parameter in the generated operation.
pub open spec fn spec_parameter_name(parameter: Parameter) -> Seq<char> {
    match parameter {
        Parameter::Keys => "keys"@,
        Parameter::TargetElement => "target_element"@,
        Parameter::AttributeName => "attribute"@,
        Parameter::PropertyName => "property"@,
        Parameter::ClassName => "class_name"@,
        Parameter::OptionText => "text"@,
        Parameter::OptionValue => "value"@,
        Parameter::OptionIndex => "index"@,
        Parameter::TimeoutSecs => "timeout_secs"@,
    }
}

/// The name of the parameter in the generated operation.
fn parameter_name(parameter: Parameter) -> (r: &'static str)
    ensures
        r@ == spec_parameter_name(parameter),
{
    match parameter {
        Parameter::Keys => "keys",
        Parameter::TargetElement => "target_element",
        Parameter::AttributeName => "attribute",
        Parameter::PropertyName => "property",
        Parameter::ClassName => "class_name",
        Parameter::OptionText => "text",
        Parameter::OptionValue => "value",
        Parameter::OptionIndex => "index",
        Parameter::TimeoutSecs => "timeout_secs",
    }
}

/// The type of a parameter of that kind in the generated operation.
pub open spec fn spec_kind_text(kind: ParameterKind) -> Seq<char> {
    match kind {
        ParameterKind::Text => "&str"@,
        ParameterKind::Index => "usize"@,
        ParameterKind::Seconds => "u64"@,
        ParameterKind::Element => "&thirtyfour::WebElement"@,
    }
}

/// The type of a parameter of that kind in the generated operation.
fn kind_text(kind: ParameterKind) -> (r: &'static str)
    ensures
        r@ == spec_kind_text(kind),
{
    match kind {
        ParameterKind::Text => "&str",
        ParameterKind::Index => "usize",
        ParameterKind::Seconds => "u64",
        ParameterKind::Element => "&thirtyfour::WebElement",
    }
}

/// The type that a generated operation which can fail returns.
pub open spec fn spec_result_text(result: ResultKind) -> Seq<char> {
    match result {
        ResultKind::OptionalElement => "Option<thirtyfour::WebElement>"@,
        ResultKind::Marker => "anyhow::Result<()>"@,
        ResultKind::Text | ResultKind::Image => "anyhow::Result<String>"@,
        ResultKind::OptionalText => "anyhow::Result<Option<String>>"@,
        ResultKind::Flag => "anyhow::Result<bool>"@,
        ResultKind::Element => "anyhow::Result<thirtyfour::WebElement>"@,
    }
}

/// The type that a generated operation which can fail returns.
fn result_text(result: ResultKind) -> (r: &'static str)
    ensures
        r@ == spec_result_text(result),
{
    match result {
        ResultKind::OptionalElement => "Option<thirtyfour::WebElement>",
        ResultKind::Marker => "anyhow::Result<()>",
        ResultKind::Text | ResultKind::Image => "anyhow::Result<String>",
        ResultKind::OptionalText => "anyhow::Result<Option<String>>",
        ResultKind::Flag => "anyhow::Result<bool>",
        ResultKind::Element => "anyhow::Result<thirtyfour::WebElement>",
    }
}

/// The body of the base operation: a query error is logged and counts as no element.
pub open spec fn spec_query_body(operation: GeneratedOperationView) -> Seq<char> {
    "        match driver.query("@
        + operation.locator
        + ").first_opt().await {\n"@
        + "            Ok(Some(element)) => Some(element),\n"@
        + "            Ok(None) => None,\n"@
        + "            Err(e) => {\n"@
        + "                log::error!(\"Error querying element {}: {}\", \""@
        + operation.field
        + "\", e);\n"@
        + "                None\n"@
        + "            }\n"@
        + "        }\n"@
}

/// The body of the base operation: a query error is logged and counts as no element.
fn query_body(operation: &GeneratedOperation) -> (r: String)
    ensures
        r@ == spec_query_body(operation@),
{
    let mut text = String::from_str("        match driver.query(");
    text.append(operation.locator.as_str());
    text.append(").first_opt().await {\n");
    text.append("            Ok(Some(element)) => Some(element),\n");
    text.append("            Ok(None) => None,\n");
    text.append("            Err(e) => {\n");
    text.append("                log::error!(\"Error querying element {}: {}\", \"");
    text.append(operation.field.as_str());
    text.append("\", e);\n");
    text.append("                None\n");
    text.append("            }\n");
    text.append("        }\n");
    text
}

/// The body of the existence check: whether anything matches; a query error counts as no.
pub open spec fn spec_probe_body(operation: GeneratedOperationView) -> Seq<char> {
    "        match driver.query("@
        + operation.locator
        + ").exists().await {\n"@
        + "            Ok(exists) => exists,\n"@
        + "            Err(_) => false,\n"@
        + "        }\n"@
}

/// The body of the existence check: whether anything matches; a query error counts as no.
fn probe_body(operation: &GeneratedOperation) -> (r: String)
    ensures
        r@ == spec_probe_body(operation@),
{
    let mut text = String::from_str("        match driver.query(");
    text.append(operation.locator.as_str());
    text.append(").exists().await {\n");
    text.append("            Ok(exists) => exists,\n");
    text.append("            Err(_) => false,\n");
    text.append("        }\n");
    text
}

/// How the operation that reads the text of the selected option ends.
pub open spec fn spec_follow_up_text(operation: GeneratedOperationView) -> Seq<char> {
    "                value.text().await.map_err(|e| anyhow::anyhow!(\"Failed to get text of selected option in {}: {}\", \""@
        + operation.field
        + "\", e))\n"@
}

/// How the operation that reads the text of the selected option ends.
fn follow_up_text(operation: &GeneratedOperation) -> (r: String)
    ensures
        r@ == spec_follow_up_text(operation@),
{
    let mut text = String::from_str("                value.text().await.map_err(|e| anyhow::anyhow!(\"Failed to get text of selected option in {}: {}\", \"");
    text.append(operation.field.as_str());
    text.append("\", e))\n");
    text
}

/// The extra parameter as it stands in the signature, after the session.
pub open spec fn spec_parameter_text(parameter: Option<Parameter>) -> Seq<char> {
    match parameter {
        Some(parameter) => ", "@ + spec_parameter_name(parameter) + ": "@ + spec_kind_text(
            parameter.spec_kind(),
        ),
        None => Seq::empty(),
    }
}

/// The extra parameter as it stands in the signature, after the session.
fn parameter_text(parameter: Option<Parameter>) -> (r: String)
    ensures
        r@ == spec_parameter_text(parameter),
{
    match parameter {
        Some(parameter) => {
            let mut text = String::from_str(", ");
            text.append(parameter_name(parameter));
            text.append(": ");
            text.append(kind_text(parameter.kind()));
            text
        },
        None => String::new(),
    }
}

/// The type that the generated operation returns: a plain truth value for the existence
/// check, which cannot fail; what the rule yields otherwise.
pub open spec fn spec_return_text(rule: ActionRule) -> Seq<char> {
    match rule.acquisition {
        Acquisition::Probe => "bool"@,
        _ => spec_result_text(rule.result),
    }
}

/// The type that the generated operation returns.
fn return_text(rule: ActionRule) -> (r: &'static str)
    ensures
        r@ == spec_return_text(rule),
{
    match rule.acquisition {
        Acquisition::Probe => "bool",
        _ => result_text(rule.result),
    }
}

/// The documentation and the signature of the generated operation, up to the brace that
/// opens its body.
pub open spec fn spec_signature(operation: GeneratedOperationView) -> Seq<char> {
    "    /// "@ + spec_documentation(operation.rule.action) + "\n    pub async fn "@
        + operation.name + "(&self, driver: &thirtyfour::WebDriver"@ + spec_parameter_text(
        operation.rule.parameter,
    ) + ") -> "@ + spec_return_text(operation.rule) + " {\n"@
}

/// The documentation and the signature of the generated operation.
fn signature(operation: &GeneratedOperation) -> (r: String)
    ensures
        r@ == spec_signature(operation@),
{
    let mut text = String::from_str("    /// ");
    text.append(documentation(operation.rule.action));
    text.append("\n    pub async fn ");
    text.append(operation.name.as_str());
    text.append("(&self, driver: &thirtyfour::WebDriver");
    let parameter = parameter_text(operation.rule.parameter);
    text.append(parameter.as_str());
    text.append(") -> ");
    text.append(return_text(operation.rule));
    text.append(" {\n");
    text
}

/// The conversion of a rejection by the driver into the failure of the operation, with
/// the words that belong to `action`: the words of the failure with a place for the
/// field's name and one for the driver's words, and before them one for the argument
/// where the words tell it.
pub open spec fn spec_map_err(action: Action, operation: GeneratedOperationView) -> Seq<char> {
    let opening = ".map_err(|e| anyhow::anyhow!(\""@ + spec_failure_head(action);
    let places = match spec_failure_middle(action) {
        Some(middle) => opening + "{}"@ + middle,
        None => opening,
    };
    let format = places + "{}"@ + spec_failure_tail(action) + ": {}\", "@;
    let told = match (spec_failure_middle(action), operation.rule.parameter) {
        (Some(_), Some(parameter)) => format + spec_parameter_name(parameter) + ", "@,
        _ => format,
    };
    told + "\""@ + operation.field + "\", e))"@
}

/// The conversion of a rejection by the driver into the failure of the operation.
fn map_err(action: Action, operation: &GeneratedOperation) -> (r: String)
    ensures
        r@ == spec_map_err(action, operation@),
{
    let mut text = String::from_str(".map_err(|e| anyhow::anyhow!(\"");
    text.append(failure_head(action));
    let middle = failure_middle(action);
    match middle {
        Some(middle) => {
            text.append("{}");
            text.append(middle);
        },
        None => {},
    }
    text.append("{}");
    text.append(failure_tail(action));
    text.append(": {}\", ");
    match (middle, operation.rule.parameter) {
        (Some(_), Some(parameter)) => {
            text.append(parameter_name(parameter));
            text.append(", ");
        },
        _ => {},
    }
    text.append("\"");
    text.append(operation.field.as_str());
    text.append("\", e))");
    text
}

/// What the operation does with its element once the base operation has found it.
pub open spec fn spec_element_text(operation: GeneratedOperationView) -> Seq<char> {
    let action = operation.rule.action;
    let call = spec_call_text(action) + "\n                    .await\n                    "@
        + spec_map_err(action, operation);
    if action == Action::HasClass {
        "                let value = "@ + call + "?;\n"@
            + "                Ok(value.map_or(false, |classes| "@
            + "classes.split_whitespace().any(|class| class == class_name)))\n"@
    } else if action == Action::GetSelectedText {
        "                let value = "@ + call + "?;\n"@ + spec_follow_up_text(operation)
    } else if operation.rule.result == ResultKind::Marker {
        "                "@ + call + "?;\n                Ok(())\n"@
    } else {
        "                "@ + call + "\n"@
    }
}

/// What the operation does with its element once the base operation has found it.
fn element_text(operation: &GeneratedOperation) -> (r: String)
    ensures
        r@ == spec_element_text(operation@),
{
    let action = operation.rule.action;
    let mut call = String::from_str(call_text(action));
    call.append("\n                    .await\n                    ");
    let conversion = map_err(action, operation);
    call.append(conversion.as_str());
    if action == Action::HasClass {
        let mut text = String::from_str("                let value = ");
        text.append(call.as_str());
        text.append("?;\n");
        text.append("                Ok(value.map_or(false, |classes| ");
        text.append("classes.split_whitespace().any(|class| class == class_name)))\n");
        text
    } else if action == Action::GetSelectedText {
        let mut text = String::from_str("                let value = ");
        text.append(call.as_str());
        text.append("?;\n");
        let ending = follow_up_text(operation);
        text.append(ending.as_str());
        text
    } else if operation.rule.result == ResultKind::Marker {
        let mut text = String::from_str("                ");
        text.append(call.as_str());
        text.append("?;\n                Ok(())\n");
        text
    } else {
        let mut text = String::from_str("                ");
        text.append(call.as_str());
        text.append("\n");
        text
    }
}

/// The body of an operation that works on the element of its field: it asks the base
/// operation of the field for the element and fails with `<field> not found` where there
/// is none.
pub open spec fn spec_located_body(operation: GeneratedOperationView) -> Seq<char> {
    "        match self."@ + Action::Locate.spec_method_name(operation.field)
        + "(driver).await {\n            Some(element) => {\n"@ + spec_element_text(operation)
        + "            },\n            None => Err(anyhow::anyhow!(\"{} not found\", \""@
        + operation.field + "\")),\n        }\n"@
}

/// The body of an operation that works on the element of its field.
fn located_body(operation: &GeneratedOperation) -> (r: String)
    ensures
        r@ == spec_located_body(operation@),
{
    let mut text = String::from_str("        match self.");
    let base = Action::Locate.method_name(operation.field.as_str());
    text.append(base.as_str());
    text.append("(driver).await {\n            Some(element) => {\n");
    let inner = element_text(operation);
    text.append(inner.as_str());
    text.append("            },\n            None => Err(anyhow::anyhow!(\"{} not found\", \"");
    text.append(operation.field.as_str());
    text.append("\")),\n        }\n");
    text
}

/// The statement that waits for the element to be visible and fails the operation when
/// the wait is rejected.
pub open spec fn spec_wait_text(operation: GeneratedOperationView) -> Seq<char> {
    "        let element = driver.query("@ + operation.locator + ")\n"@
        + "            .wait(std::time::Duration::from_secs(timeout_secs), "@
        + "std::time::Duration::from_millis(500))\n"@ + "            .visible()\n"@
        + "            .first()\n"@ + "            .await\n"@ + "            "@ + spec_map_err(
        Action::WaitFor,
        operation,
    ) + "?;\n"@
}

/// The statement that waits for the element to be visible.
fn wait_text(operation: &GeneratedOperation) -> (r: String)
    ensures
        r@ == spec_wait_text(operation@),
{
    let mut text = String::from_str("        let element = driver.query(");
    text.append(operation.locator.as_str());
    text.append(")\n");
    text.append("            .wait(std::time::Duration::from_secs(timeout_secs), ");
    text.append("std::time::Duration::from_millis(500))\n");
    text.append("            .visible()\n");
    text.append("            .first()\n");
    text.append("            .await\n");
    text.append("            ");
    let conversion = map_err(Action::WaitFor, operation);
    text.append(conversion.as_str());
    text.append("?;\n");
    text
}

/// The statement that fails the operation where the element is disabled, or where the
/// driver does not say whether it is.
pub open spec fn spec_enabled_text(operation: GeneratedOperationView) -> Seq<char> {
    "        if !element.is_enabled().await"@ + spec_map_err(
        Action::WaitUntilClickable,
        operation,
    ) + "? {\n"@ + "            return Err(anyhow::anyhow!("@
        + "\"Element {} is not clickable (disabled)\", \""@ + operation.field + "\"));\n"@
        + "        }\n"@
}

/// The statement that fails the operation where the element is disabled.
fn enabled_text(operation: &GeneratedOperation) -> (r: String)
    ensures
        r@ == spec_enabled_text(operation@),
{
    let mut text = String::from_str("        if !element.is_enabled().await");
    let conversion = map_err(Action::WaitUntilClickable, operation);
    text.append(conversion.as_str());
    text.append("? {\n");
    text.append("            return Err(anyhow::anyhow!(");
    text.append("\"Element {} is not clickable (disabled)\", \"");
    text.append(operation.field.as_str());
    text.append("\"));\n");
    text.append("        }\n");
    text
}

/// The body of an operation that waits for its element, and for one of them checks that
/// the element is enabled.
pub open spec fn spec_await_body(operation: GeneratedOperationView) -> Seq<char> {
    let waited = if operation.rule.action == Action::WaitUntilClickable {
        spec_wait_text(operation) + spec_enabled_text(operation)
    } else {
        spec_wait_text(operation)
    };
    waited + "        Ok(element)\n"@
}

/// The body of an operation that waits for its element.
fn await_body(operation: &GeneratedOperation) -> (r: String)
    ensures
        r@ == spec_await_body(operation@),
{
    let mut text = wait_text(operation);
    if operation.rule.action == Action::WaitUntilClickable {
        let check = enabled_text(operation);
        text.append(check.as_str());
    }
    text.append("        Ok(element)\n");
    text
}

/// The body of the generated operation, by the way in which it gets hold of its element.
pub open spec fn spec_body(operation: GeneratedOperationView) -> Seq<char> {
    match operation.rule.acquisition {
        Acquisition::Query => spec_query_body(operation),
        Acquisition::Probe => spec_probe_body(operation),
        Acquisition::Await => spec_await_body(operation),
        Acquisition::Locate => spec_located_body(operation),
    }
}

/// The source text of one generated operation: its documentation, its signature and its
/// body, as a method inside an `impl` block.
pub open spec fn spec_render_operation(operation: GeneratedOperationView) -> Seq<char> {
    spec_signature(operation) + spec_body(operation) + "    }\n"@
}

/// The source text of the operations, one after the other with an empty line between
/// them.
pub open spec fn spec_render_operations(operations: Seq<GeneratedOperationView>) -> Seq<char>
    decreases operations.len(),
{
    if operations.len() == 0 {
        Seq::empty()
    } else if operations.len() == 1 {
        spec_render_operation(operations.last())
    } else {
        spec_render_operations(operations.drop_last()) + "\n"@ + spec_render_operation(
            operations.last(),
        )
    }
}

/// The source text of everything that is generated for a type: one `impl` block of the
/// type that holds the operations in the order in which they were generated.
pub open spec fn spec_render(set: GeneratedMethodSetView) -> Seq<char> {
    "impl "@ + set.owner + " {\n"@ + spec_render_operations(set.operations) + "}\n"@
}

impl GeneratedOperation {
    /// Writes the operation as source text.
    pub fn render(&self) -> (r: String)
        ensures
            r@ == spec_render_operation(self@),
    {
        let mut text = signature(self);
        let body = match self.rule.acquisition {
            Acquisition::Query => query_body(self),
            Acquisition::Probe => probe_body(self),
            Acquisition::Await => await_body(self),
            Acquisition::Locate => located_body(self),
        };
        text.append(body.as_str());
        text.append("    }\n");
        text
    }
}

impl GeneratedMethodSet {
    /// Writes everything that is generated for the type as source text: one `impl` block
    /// with the operations in their order.
    pub fn render(&self) -> (r: String)
        ensures
            r@ == spec_render(self@),
    {
        let ghost operations = self@.operations;
        let mut text = String::from_str("impl ");
        text.append(self.owner.as_str());
        text.append(" {\n");
        let ghost opening = text@;
        let count: usize = self.operations.len();
        let mut i: usize = 0;
        proof {
            assert(operations.take(0) =~= Seq::<GeneratedOperationView>::empty());
            assert(opening + Seq::<char>::empty() =~= opening);
        }
        while i < count
            invariant
                i <= count,
                count == self.operations.len(),
                operations == self@.operations,
                operations.len() == count,
                text@ == opening + spec_render_operations(operations.take(i as int)),
            decreases count - i,
        {
            let ghost before = spec_render_operations(operations.take(i as int));
            proof {
                assert(operations.take(i + 1).drop_last() =~= operations.take(i as int));
                assert(operations.take(i + 1).last() == self.operations[i as int]@);
            }
            if i > 0 {
                text.append("\n");
            }
            let method = self.operations[i].render();
            text.append(method.as_str());
            proof {
                let after = spec_render_operations(operations.take(i + 1));
                if i == 0 {
                    assert(before =~= Seq::<char>::empty());
                    assert(text@ =~= opening + after);
                } else {
                    assert(after == before + "\n"@ + method@);
                    assert(text@ =~= opening + after);
                }
            }
            i += 1;
        }
        proof {
            assert(operations.take(count as int) =~= operations);
        }
        text.append("}\n");
        text
    }
}

} // verus!
