//! `get`: reading the title, address, text, HTML, values, attributes and
//! element counts of the page.
use vstd::prelude::*;
use crate::browser::{
    bare, bare_request, execute_script, find_element_request, script_request,
    value_or_self, value_or_whole, value_text, response_value_str, ElementAction, ElementFlow,
};
use crate::cli::GetCommand;
use crate::flow::{
    error_view, quiet, quiet_step, say, say_step, unexpected, unexpected_step, Event, Next, NextView,
    Output, OutputView, Request, RequestView, Step, StepView,
};
use crate::json::{json_quote, json_string_literal, json_text, json_to_string, Json, JsonView};
use crate::protocol::{css_selector_params, json_str, object1, object_view};
use crate::text::{decimal_string, decimal_text};

verus! {

broadcast use vstd::string::group_string_axioms;

/// What `get title` and `get url` print: the value alone, or, with `json`,
/// the JSON text of the one-member object `{"key": "value"}`.
pub open spec fn named_output(key: Seq<char>, value: Seq<char>, json: bool) -> Seq<char> {
    if json {
        json_text(object_view(seq![(key, JsonView::Str(value))]))
    } else {
        value
    }
}

/// The text that `get title` and `get url` print.
pub fn named_get_output(key: &str, value: &str, json: bool) -> (r: String)
    ensures
        r@ == named_output(key@, value@, json),
{
    if json {
        json_to_string(&object1(key, json_str(value)))
    } else {
        value.to_string()
    }
}

/// The number of elements in a `WebDriver:FindElements` reply.
pub open spec fn matching_count(result: JsonView) -> nat {
    match result.get("value"@) {
        Some(JsonView::Array(items)) => items.len(),
        _ => 0,
    }
}

/// The number of elements in a `WebDriver:FindElements` reply.
pub fn get_matching_elements_count(result: &Json) -> (r: usize)
    ensures
        r == matching_count(result@),
{
    match result.get("value") {
        Some(v) => match v.as_array() {
            Some(items) => items.len(),
            None => 0,
        },
        None => 0,
    }
}

/// The script that reads the inner HTML of the element a selector finds.
pub open spec fn inner_html_script_text(selector: Seq<char>) -> Seq<char> {
    "return document.querySelector("@ + json_string_literal(selector) + ").innerHTML"@
}

/// The script that reads the inner HTML of the element a selector finds.
pub fn inner_html_script(selector: &str) -> (r: String)
    ensures
        r@ == inner_html_script_text(selector@),
{
    let mut script = "return document.querySelector(".to_string();
    script.push_str(json_quote(selector).as_str());
    script.push_str(").innerHTML");
    script
}

// ---------------------------------------------------------------------------
// Commands that send one request and print from its reply
// ---------------------------------------------------------------------------

/// What is printed from the reply.
pub enum QueryOutput {
    /// The `value` text, or `{"key":"value"}` with `json`.
    Named { key: String, json: bool },
    /// The `value` text.
    Text,
    /// The number of elements found.
    Count,
    /// The `value` member (or the whole reply) as JSON, pretty unless `json`.
    Value { json: bool },
}

/// What a query prints from its reply.
pub open spec fn query_result_step(output: QueryOutput, result: JsonView) -> StepView {
    match output {
        QueryOutput::Named { key, json } => say(named_output(key@, value_text(result), json), NextView::Finish),
        QueryOutput::Text => say(value_text(result), NextView::Finish),
        QueryOutput::Count => say(decimal_text(matching_count(result)), NextView::Finish),
        QueryOutput::Value { json } => StepView {
            output: seq![OutputView::Json(value_or_self(result), !json)],
            next: NextView::Finish,
        },
    }
}

/// A command that sends one request and prints from its reply.
pub struct QueryFlow {
    /// The request, until it is sent.
    pub request: Option<Request>,
    pub output: QueryOutput,
}

impl QueryFlow {
    pub fn new(request: Request, output: QueryOutput) -> (r: QueryFlow)
        ensures
            r.request == Some(request),
            r.output == output,
    {
        QueryFlow { request: Some(request), output }
    }

    pub fn step(self, event: Event) -> (r: (QueryFlow, Step))
        ensures
            r.0.output == self.output,
            r.0.request is None,
            match (self.request, event) {
                (Some(request), Event::Begin) => r.1@ == quiet(NextView::Send(request@)),
                (None, Event::Reply(Ok(result))) => r.1@ == query_result_step(self.output, result@),
                (None, Event::Reply(Err(e))) => r.1@ == quiet(NextView::Fail(error_view(e))),
                _ => r.1@ == unexpected_step(),
            },
    {
        let QueryFlow { request, output } = self;
        match (request, event) {
            (Some(request), Event::Begin) => (QueryFlow { request: None, output }, quiet_step(Next::Send(request))),
            (None, Event::Reply(Ok(result))) => {
                let step = match &output {
                    QueryOutput::Named { key, json } => {
                        let line = named_get_output(key.as_str(), response_value_str(&result), *json);
                        say_step(line, Next::Finish)
                    },
                    QueryOutput::Text => say_step(response_value_str(&result).to_string(), Next::Finish),
                    QueryOutput::Count => {
                        let count = get_matching_elements_count(&result);
                        say_step(decimal_string(count as u64), Next::Finish)
                    },
                    QueryOutput::Value { json } => {
                        let value = value_or_whole(&result);
                        let mut lines: Vec<Output> = Vec::new();
                        lines.push(Output::Json { value, pretty: !*json });
                        let step = Step { output: lines, next: Next::Finish };
                        assert(step@.output =~= seq![OutputView::Json(value_or_self(result@), !*json)]);
                        step
                    },
                };
                (QueryFlow { request: None, output }, step)
            },
            (None, Event::Reply(Err(e))) => (QueryFlow { request: None, output }, quiet_step(Next::Fail(e))),
            _ => (QueryFlow { request: None, output }, unexpected()),
        }
    }
}

// ---------------------------------------------------------------------------
// Classifying `get`
// ---------------------------------------------------------------------------

/// A `get` that sends one request without parameters and prints one named value.
pub struct NamedGetAction {
    pub webdriver_command: String,
    pub output_key: String,
}

/// A `get` about the element(s) a selector finds.
pub enum SelectorGetAction {
    Html(String),
    Value(String),
    Attr { selector: String, name: String },
    Count(String),
}

/// A `get`, decided.
pub enum GetAction {
    Named(NamedGetAction),
    Text(Option<String>),
    Selector(SelectorGetAction),
}

/// Decides what a `get` command does.
pub fn classify_get_command(what: GetCommand) -> (r: GetAction)
    ensures
        match what {
            GetCommand::Title => r matches GetAction::Named(n) && n.webdriver_command@ == "WebDriver:GetTitle"@
                && n.output_key@ == "title"@,
            GetCommand::Url => r matches GetAction::Named(n) && n.webdriver_command@ == "WebDriver:GetCurrentURL"@
                && n.output_key@ == "url"@,
            GetCommand::Text { selector } => r == GetAction::Text(selector),
            GetCommand::Html { selector } => r == GetAction::Selector(SelectorGetAction::Html(selector)),
            GetCommand::Value { selector } => r == GetAction::Selector(SelectorGetAction::Value(selector)),
            GetCommand::Attr { selector, name } => r == GetAction::Selector(
                SelectorGetAction::Attr { selector, name },
            ),
            GetCommand::Count { selector } => r == GetAction::Selector(SelectorGetAction::Count(selector)),
        },
{
    match what {
        GetCommand::Title => GetAction::Named(
            NamedGetAction {
                webdriver_command: "WebDriver:GetTitle".to_string(),
                output_key: "title".to_string(),
            },
        ),
        GetCommand::Url => GetAction::Named(
            NamedGetAction {
                webdriver_command: "WebDriver:GetCurrentURL".to_string(),
                output_key: "url".to_string(),
            },
        ),
        GetCommand::Text { selector } => GetAction::Text(selector),
        GetCommand::Html { selector } => GetAction::Selector(SelectorGetAction::Html(selector)),
        GetCommand::Value { selector } => GetAction::Selector(SelectorGetAction::Value(selector)),
        GetCommand::Attr { selector, name } => GetAction::Selector(SelectorGetAction::Attr { selector, name }),
        GetCommand::Count { selector } => GetAction::Selector(SelectorGetAction::Count(selector)),
    }
}

// ---------------------------------------------------------------------------
// Running `get`
// ---------------------------------------------------------------------------

/// A `get` in progress: one request and its reply, or a command on an element.
pub enum GetFlow {
    Query(QueryFlow),
    Element(ElementFlow),
}

/// The request of a `get` that reads a named value.
pub open spec fn named_request(action: NamedGetAction) -> RequestView {
    bare_request(action.webdriver_command@)
}

/// Starts a `get` that reads a named value, such as the title.
pub fn execute_get_string_field(action: NamedGetAction, json: bool) -> (r: QueryFlow)
    ensures
        r.request matches Some(q) && q@ == named_request(action),
        r.output matches QueryOutput::Named { key, json: j } && (key == action.output_key && j == json),
{
    let request = bare(action.webdriver_command.as_str());
    QueryFlow::new(request, QueryOutput::Named { key: action.output_key, json })
}

/// The script that reads the text of the whole page.
pub open spec fn body_text_script() -> Seq<char> {
    "return document.body.innerText"@
}

/// The flow that reads a named value with `command` and prints it under `key`.
pub open spec fn is_named_flow(command: Seq<char>, key: Seq<char>, json: bool, r: GetFlow) -> bool {
    &&& r matches GetFlow::Query(q)
    &&& q.request matches Some(req)
    &&& req@ == bare_request(command)
    &&& q.output matches QueryOutput::Named { key: k, json: j }
    &&& k@ == key
    &&& j == json
}

/// The flow of `get text`: the text of the element, or of the whole page.
pub open spec fn is_text_flow(selector: Option<String>, r: GetFlow) -> bool {
    match selector {
        Some(sel) => r matches GetFlow::Element(e) && (e.selector == sel && e.action is Text && e.stage is Start),
        None => {
            &&& r matches GetFlow::Query(q)
            &&& q.request matches Some(req)
            &&& req@ == script_request(body_text_script())
            &&& q.output is Text
        },
    }
}

/// The flow of a `get` about the element(s) a selector finds.
pub open spec fn is_selector_flow(action: SelectorGetAction, r: GetFlow) -> bool {
    match action {
        SelectorGetAction::Html(sel) => {
            &&& r matches GetFlow::Query(q)
            &&& q.request matches Some(req)
            &&& req@ == script_request(inner_html_script_text(sel@))
            &&& q.output is Text
        },
        SelectorGetAction::Value(sel) => {
            &&& r matches GetFlow::Element(e)
            &&& e.selector == sel
            &&& e.action matches ElementAction::Property(n)
            &&& n@ == "value"@
            &&& e.stage is Start
        },
        SelectorGetAction::Attr { selector, name } => {
            &&& r matches GetFlow::Element(e)
            &&& e.selector == selector
            &&& e.action == ElementAction::Attribute(name)
            &&& e.stage is Start
        },
        SelectorGetAction::Count(sel) => {
            &&& r matches GetFlow::Query(q)
            &&& q.request matches Some(req)
            &&& req@ == find_elements_request(sel@)
            &&& q.output is Count
        },
    }
}

/// The flow of a decided `get`.
pub open spec fn is_action_flow(action: GetAction, json: bool, r: GetFlow) -> bool {
    match action {
        GetAction::Named(n) => is_named_flow(n.webdriver_command@, n.output_key@, json, r),
        GetAction::Text(selector) => is_text_flow(selector, r),
        GetAction::Selector(a) => is_selector_flow(a, r),
    }
}

/// The flow of a `get` command.
pub open spec fn is_get_flow(what: GetCommand, json: bool, r: GetFlow) -> bool {
    match what {
        GetCommand::Title => is_named_flow("WebDriver:GetTitle"@, "title"@, json, r),
        GetCommand::Url => is_named_flow("WebDriver:GetCurrentURL"@, "url"@, json, r),
        GetCommand::Text { selector } => is_text_flow(selector, r),
        GetCommand::Html { selector } => is_selector_flow(SelectorGetAction::Html(selector), r),
        GetCommand::Value { selector } => is_selector_flow(SelectorGetAction::Value(selector), r),
        GetCommand::Attr { selector, name } => is_selector_flow(SelectorGetAction::Attr { selector, name }, r),
        GetCommand::Count { selector } => is_selector_flow(SelectorGetAction::Count(selector), r),
    }
}

/// Starts a `get text`: of the element a selector finds, or of the whole page.
pub fn get_text(selector: Option<String>) -> (r: GetFlow)
    ensures
        is_text_flow(selector, r),
{
    match selector {
        Some(selector) => GetFlow::Element(ElementFlow::new(selector, ElementAction::Text)),
        None => GetFlow::Query(QueryFlow::new(execute_script("return document.body.innerText"), QueryOutput::Text)),
    }
}

/// The request that finds all elements a selector matches.
pub open spec fn find_elements_request(selector: Seq<char>) -> RequestView {
    RequestView { command: "WebDriver:FindElements"@, params: find_element_request(selector).params }
}

/// Starts a `get` about the element(s) a selector finds.
pub fn execute_selector_get_action(action: SelectorGetAction) -> (r: GetFlow)
    ensures
        is_selector_flow(action, r),
{
    match action {
        SelectorGetAction::Html(selector) => {
            let script = inner_html_script(selector.as_str());
            GetFlow::Query(QueryFlow::new(execute_script(script.as_str()), QueryOutput::Text))
        },
        SelectorGetAction::Value(selector) => GetFlow::Element(
            ElementFlow::new(selector, ElementAction::Property("value".to_string())),
        ),
        SelectorGetAction::Attr { selector, name } => GetFlow::Element(
            ElementFlow::new(selector, ElementAction::Attribute(name)),
        ),
        SelectorGetAction::Count(selector) => {
            let request = Request::new("WebDriver:FindElements", css_selector_params(selector.as_str()));
            GetFlow::Query(QueryFlow::new(request, QueryOutput::Count))
        },
    }
}

/// Starts a decided `get`.
pub fn execute_get_action(action: GetAction, json: bool) -> (r: GetFlow)
    ensures
        is_action_flow(action, json, r),
{
    match action {
        GetAction::Named(action) => GetFlow::Query(execute_get_string_field(action, json)),
        GetAction::Text(selector) => get_text(selector),
        GetAction::Selector(action) => execute_selector_get_action(action),
    }
}

/// Starts a `get` command.
pub fn execute_get_command(what: GetCommand, json: bool) -> (r: GetFlow)
    ensures
        is_get_flow(what, json, r),
{
    let action = classify_get_command(what);
    execute_get_action(action, json)
}

/// Starts a `get` command.
pub fn handle_get(what: GetCommand, json: bool) -> (r: GetFlow)
    ensures
        is_get_flow(what, json, r),
{
    execute_get_command(what, json)
}

} // verus!
