//! The browser commands: navigation, elements, keys, screenshots, scripts and waiting.
use vstd::prelude::*;
use vstd::slice::slice_subrange;
use crate::flow::{
    error_view, fail_with, quiet, quiet_step, say, say_step, unexpected, unexpected_step, ErrorView,
    Event, Next, NextView, Output, OutputView, Request, RequestView, SimpleFlow, Step, StepView,
};
use crate::json::{member_str, Json, JsonView};
use crate::protocol::{
    css_selector_params, empty_object, execute_script_params, json_str, member_text_or, object1,
    object2, object_view, MarionetteError,
};
use crate::get::{QueryFlow, QueryOutput};
use crate::text::{
    contains_text, decimal_string, decimal_text, has_substring, occurs_at, parse_u64, parsed_unsigned,
};

verus! {

broadcast use vstd::string::group_string_axioms;

// ---------------------------------------------------------------------------
// Reading replies
// ---------------------------------------------------------------------------

/// The text of a reply's `value` member, or the empty text.
pub open spec fn value_text(result: JsonView) -> Seq<char> {
    member_text_or(result, "value"@, ""@)
}

/// The text of a reply's `value` member, or the empty text.
pub fn response_value_str(result: &Json) -> (r: &str)
    ensures
        r@ == value_text(result@),
{
    match result.get("value") {
        Some(v) => match v.as_str() {
            Some(s) => s,
            None => "",
        },
        None => "",
    }
}

/// The id of an element in a `WebDriver:FindElement` reply: the first member of
/// its `value` object, when that is a string.
pub open spec fn element_id_of(element: JsonView) -> Option<Seq<char>> {
    match element.get("value"@) {
        Some(v) => match v.first_member_value() {
            Some(id) => id.as_str(),
            None => None,
        },
        None => None,
    }
}

/// The id of the element a `WebDriver:FindElement` reply describes.
pub fn extract_element_id(element: &Json) -> (r: Result<&str, MarionetteError>)
    ensures
        match element_id_of(element@) {
            Some(id) => r matches Ok(s) && s@ == id,
            None => r matches Err(MarionetteError::Failed(m)) && m@ == "Element not found"@,
        },
{
    match element.get("value") {
        Some(v) => match v.first_member_value() {
            Some(id) => match id.as_str() {
                Some(s) => return Ok(s),
                None => {},
            },
            None => {},
        },
        None => {},
    }
    Err(MarionetteError::Failed("Element not found".to_string()))
}

/// A reply's `value` member, or the whole reply when it has none.
pub open spec fn value_or_self(result: JsonView) -> JsonView {
    match result.get("value"@) {
        Some(v) => v,
        None => result,
    }
}

/// A copy of a reply's `value` member, or of the whole reply when it has none.
pub fn value_or_whole(result: &Json) -> (r: Json)
    ensures
        r@ == value_or_self(result@),
{
    match result.get("value") {
        Some(v) => v.deep_copy(),
        None => result.deep_copy(),
    }
}

// ---------------------------------------------------------------------------
// Requests
// ---------------------------------------------------------------------------

/// The request that finds an element by CSS selector.
pub open spec fn find_element_request(selector: Seq<char>) -> RequestView {
    RequestView {
        command: "WebDriver:FindElement"@,
        params: object_view(seq![("using"@, JsonView::Str("css selector"@)), ("value"@, JsonView::Str(selector))]),
    }
}

pub fn find_element(selector: &str) -> (r: Request)
    ensures
        r@ == find_element_request(selector@),
{
    Request::new("WebDriver:FindElement", css_selector_params(selector))
}

/// A request with no parameters.
pub open spec fn bare_request(command: Seq<char>) -> RequestView {
    RequestView { command, params: object_view(seq![]) }
}

pub fn bare(command: &str) -> (r: Request)
    ensures
        r@ == bare_request(command@),
{
    Request::new(command, empty_object())
}

/// A request that runs a script without arguments.
pub open spec fn script_request(script: Seq<char>) -> RequestView {
    RequestView {
        command: "WebDriver:ExecuteScript"@,
        params: object_view(seq![("script"@, JsonView::Str(script)), ("args"@, JsonView::Array(seq![]))]),
    }
}

pub fn execute_script(script: &str) -> (r: Request)
    ensures
        r@ == script_request(script@),
{
    Request::new("WebDriver:ExecuteScript", execute_script_params(script))
}

// ---------------------------------------------------------------------------
// Commands with fixed requests
// ---------------------------------------------------------------------------

/// A command that sends one request without parameters and prints `message`.
pub open spec fn is_bare_command(flow: SimpleFlow, command: Seq<char>, message: Seq<char>) -> bool {
    &&& !flow.started
    &&& flow.pending@.len() == 1
    &&& flow.pending@[0]@ == bare_request(command)
    &&& flow.message@ == message
}

fn bare_command(command: &str, message: &str) -> (r: SimpleFlow)
    ensures
        is_bare_command(r, command@, message@),
{
    let mut requests: Vec<Request> = Vec::new();
    requests.push(bare(command));
    SimpleFlow::new(requests, message.to_string())
}

/// Go back in history.
pub fn go_back() -> (r: SimpleFlow)
    ensures
        is_bare_command(r, "WebDriver:Back"@, "✓ Back"@),
{
    bare_command("WebDriver:Back", "✓ Back")
}

/// Go forward in history.
pub fn go_forward() -> (r: SimpleFlow)
    ensures
        is_bare_command(r, "WebDriver:Forward"@, "✓ Forward"@),
{
    bare_command("WebDriver:Forward", "✓ Forward")
}

/// Reload the page.
pub fn reload_page() -> (r: SimpleFlow)
    ensures
        is_bare_command(r, "WebDriver:Refresh"@, "✓ Reloaded"@),
{
    bare_command("WebDriver:Refresh", "✓ Reloaded")
}

/// Close the browser window.
pub fn close_browser() -> (r: SimpleFlow)
    ensures
        is_bare_command(r, "WebDriver:CloseWindow"@, "✓ Closed"@),
{
    bare_command("WebDriver:CloseWindow", "✓ Closed")
}

/// The parameters of `WebDriver:PerformActions` that press and release a key.
pub open spec fn key_press_params(key: Seq<char>) -> JsonView {
    object_view(
        seq![
            (
                "actions"@,
                JsonView::Array(
                    seq![
                        object_view(
                            seq![
                                ("type"@, JsonView::Str("key"@)),
                                ("id"@, JsonView::Str("keyboard"@)),
                                (
                                    "actions"@,
                                    JsonView::Array(
                                        seq![
                                            object_view(seq![("type"@, JsonView::Str("keyDown"@)), ("value"@, JsonView::Str(key))]),
                                            object_view(seq![("type"@, JsonView::Str("keyUp"@)), ("value"@, JsonView::Str(key))]),
                                        ],
                                    ),
                                ),
                            ],
                        ),
                    ],
                ),
            ),
        ],
    )
}

fn key_press_json(key: &str) -> (r: Json)
    ensures
        r@ == key_press_params(key@),
{
    let down = object2("type", json_str("keyDown"), "value", json_str(key));
    let up = object2("type", json_str("keyUp"), "value", json_str(key));
    let mut key_actions: Vec<Json> = Vec::new();
    key_actions.push(down);
    key_actions.push(up);
    let ghost kv = key_actions@;
    let key_actions_json = Json::Array(key_actions);
    assert(key_actions_json@->Array_0 =~= seq![kv[0]@, kv[1]@]);
    let mut entries: Vec<(String, Json)> = Vec::new();
    entries.push(("type".to_string(), json_str("key")));
    entries.push(("id".to_string(), json_str("keyboard")));
    entries.push(("actions".to_string(), key_actions_json));
    let ghost ev = entries@;
    let source = Json::Object(entries);
    assert(source@->Object_0 =~= seq![(ev[0].0@, ev[0].1@), (ev[1].0@, ev[1].1@), (ev[2].0@, ev[2].1@)]);
    let mut sources: Vec<Json> = Vec::new();
    sources.push(source);
    let ghost sv = sources@;
    let sources_json = Json::Array(sources);
    assert(sources_json@->Array_0 =~= seq![sv[0]@]);
    let r = object1("actions", sources_json);
    assert(r@ =~= key_press_params(key@));
    r
}

/// Press and release a key.
pub fn press_key(key: String) -> (r: SimpleFlow)
    ensures
        !r.started,
        r.pending@.len() == 1,
        r.pending@[0]@ == (RequestView { command: "WebDriver:PerformActions"@, params: key_press_params(key@) }),
        r.message@ == "✓ Pressed "@ + key@,
{
    let mut requests: Vec<Request> = Vec::new();
    requests.push(Request::new("WebDriver:PerformActions", key_press_json(key.as_str())));
    let mut message = "✓ Pressed ".to_string();
    message.push_str(key.as_str());
    SimpleFlow::new(requests, message)
}

// ---------------------------------------------------------------------------
// Commands on one element
// ---------------------------------------------------------------------------

/// What is done to an element once it is found.
pub enum ElementAction {
    Click,
    Type(String),
    Fill(String),
    Text,
    Property(String),
    Attribute(String),
}

/// A request about the element with the given id, with `extra` members after the id.
pub open spec fn element_request(command: Seq<char>, id: Seq<char>) -> RequestView {
    RequestView { command, params: object_view(seq![("id"@, JsonView::Str(id))]) }
}

pub open spec fn element_request2(command: Seq<char>, id: Seq<char>, key: Seq<char>, value: Seq<char>) -> RequestView {
    RequestView {
        command,
        params: object_view(seq![("id"@, JsonView::Str(id)), (key, JsonView::Str(value))]),
    }
}

/// The request that sends keys to an element.
pub open spec fn send_keys_request(id: Seq<char>, text: Seq<char>) -> RequestView {
    element_request2("WebDriver:ElementSendKeys"@, id, "text"@, text)
}

/// The first request an action sends once the element's id is known.
pub open spec fn first_element_request(action: ElementAction, id: Seq<char>) -> RequestView {
    match action {
        ElementAction::Click => element_request("WebDriver:ElementClick"@, id),
        ElementAction::Type(text) => send_keys_request(id, text@),
        ElementAction::Fill(_) => element_request("WebDriver:ElementClear"@, id),
        ElementAction::Text => element_request("WebDriver:GetElementText"@, id),
        ElementAction::Property(name) => element_request2("WebDriver:GetElementProperty"@, id, "name"@, name@),
        ElementAction::Attribute(name) => element_request2("WebDriver:GetElementAttribute"@, id, "name"@, name@),
    }
}

/// What an action prints once its last request succeeded.
pub open spec fn element_result_step(action: ElementAction, result: JsonView) -> StepView {
    match action {
        ElementAction::Click => say("✓ Clicked"@, NextView::Finish),
        ElementAction::Type(_) => say("✓ Typed"@, NextView::Finish),
        ElementAction::Fill(_) => say("✓ Filled"@, NextView::Finish),
        _ => say(value_text(result), NextView::Finish),
    }
}

/// Where a command on an element stands.
pub enum ElementStage {
    Start,
    Finding,
    /// The element was cleared; its new text is sent next.
    Clearing { id: String, text: String },
    Acting { id: String },
}

/// A command on the element that a CSS selector finds.
pub struct ElementFlow {
    pub selector: String,
    pub action: ElementAction,
    pub stage: ElementStage,
}

fn element_json_request(command: &str, id: &str) -> (r: Request)
    ensures
        r@ == element_request(command@, id@),
{
    Request::new(command, object1("id", json_str(id)))
}

fn element_json_request2(command: &str, id: &str, key: &str, value: &str) -> (r: Request)
    ensures
        r@ == element_request2(command@, id@, key@, value@),
{
    Request::new(command, object2("id", json_str(id), key, json_str(value)))
}

impl ElementFlow {
    pub fn new(selector: String, action: ElementAction) -> (r: ElementFlow)
        ensures
            r.selector == selector,
            r.action == action,
            r.stage is Start,
    {
        ElementFlow { selector, action, stage: ElementStage::Start }
    }

    pub fn step(self, event: Event) -> (r: (ElementFlow, Step))
        ensures
            r.0.selector == self.selector,
            r.0.action == self.action,
            match (self.stage, event) {
                (ElementStage::Start, Event::Begin) => r.0.stage is Finding && r.1@ == quiet(
                    NextView::Send(find_element_request(self.selector@)),
                ),
                (ElementStage::Finding, Event::Reply(Ok(element))) => match element_id_of(element@) {
                    None => r.0.stage is Finding && r.1@ == quiet(
                        NextView::Fail(ErrorView::Failed("Element not found"@)),
                    ),
                    Some(id) => {
                        &&& r.1@ == quiet(NextView::Send(first_element_request(self.action, id)))
                        &&& match self.action {
                            ElementAction::Fill(text) => r.0.stage matches ElementStage::Clearing { id: i, text: t }
                                && i@ == id && t == text,
                            _ => r.0.stage matches ElementStage::Acting { id: i } && i@ == id,
                        }
                    },
                },
                (ElementStage::Clearing { id, text }, Event::Reply(Ok(_))) => r.0.stage == ElementStage::Acting { id }
                    && r.1@ == quiet(NextView::Send(send_keys_request(id@, text@))),
                (ElementStage::Acting { .. }, Event::Reply(Ok(result))) => r.1@ == element_result_step(
                    self.action,
                    result@,
                ),
                (ElementStage::Start, _) => r.1@ == unexpected_step(),
                (_, Event::Reply(Err(e))) => r.1@ == quiet(NextView::Fail(error_view(e))),
                _ => r.1@ == unexpected_step(),
            },
    {
        let ElementFlow { selector, action, stage } = self;
        match (stage, event) {
            (ElementStage::Start, Event::Begin) => {
                let request = find_element(selector.as_str());
                (ElementFlow { selector, action, stage: ElementStage::Finding }, quiet_step(Next::Send(request)))
            },
            (ElementStage::Finding, Event::Reply(Ok(element))) => {
                let id = match extract_element_id(&element) {
                    Ok(id) => id,
                    Err(e) => {
                        return (ElementFlow { selector, action, stage: ElementStage::Finding }, quiet_step(Next::Fail(e)));
                    },
                };
                let request = match &action {
                    ElementAction::Click => element_json_request("WebDriver:ElementClick", id),
                    ElementAction::Type(text) => element_json_request2("WebDriver:ElementSendKeys", id, "text", text.as_str()),
                    ElementAction::Fill(_) => element_json_request("WebDriver:ElementClear", id),
                    ElementAction::Text => element_json_request("WebDriver:GetElementText", id),
                    ElementAction::Property(name) => element_json_request2("WebDriver:GetElementProperty", id, "name", name.as_str()),
                    ElementAction::Attribute(name) => element_json_request2("WebDriver:GetElementAttribute", id, "name", name.as_str()),
                };
                let stage = match &action {
                    ElementAction::Fill(text) => ElementStage::Clearing { id: id.to_string(), text: text.clone() },
                    _ => ElementStage::Acting { id: id.to_string() },
                };
                (ElementFlow { selector, action, stage }, quiet_step(Next::Send(request)))
            },
            (ElementStage::Clearing { id, text }, Event::Reply(Ok(_))) => {
                let request = element_json_request2("WebDriver:ElementSendKeys", id.as_str(), "text", text.as_str());
                (ElementFlow { selector, action, stage: ElementStage::Acting { id } }, quiet_step(Next::Send(request)))
            },
            (ElementStage::Acting { id }, Event::Reply(Ok(result))) => {
                let line: String = match &action {
                    ElementAction::Click => "✓ Clicked".to_string(),
                    ElementAction::Type(_) => "✓ Typed".to_string(),
                    ElementAction::Fill(_) => "✓ Filled".to_string(),
                    _ => response_value_str(&result).to_string(),
                };
                (ElementFlow { selector, action, stage: ElementStage::Acting { id } }, say_step(line, Next::Finish))
            },
            (ElementStage::Start, _) => (ElementFlow { selector, action, stage: ElementStage::Start }, unexpected()),
            (stage, Event::Reply(Err(e))) => (ElementFlow { selector, action, stage }, quiet_step(Next::Fail(e))),
            (stage, _) => (ElementFlow { selector, action, stage }, unexpected()),
        }
    }
}

/// Click the element the selector finds.
pub fn click_element(selector: String) -> (r: ElementFlow)
    ensures
        r.selector == selector && r.action is Click && r.stage is Start,
{
    ElementFlow::new(selector, ElementAction::Click)
}

/// Type text into the element the selector finds.
pub fn type_into_element(selector: String, text: String) -> (r: ElementFlow)
    ensures
        r.selector == selector && r.action == ElementAction::Type(text) && r.stage is Start,
{
    ElementFlow::new(selector, ElementAction::Type(text))
}

/// Clear the element the selector finds, then type text into it.
pub fn fill_element(selector: String, text: String) -> (r: ElementFlow)
    ensures
        r.selector == selector && r.action == ElementAction::Fill(text) && r.stage is Start,
{
    ElementFlow::new(selector, ElementAction::Fill(text))
}

// ---------------------------------------------------------------------------
// Opening a page
// ---------------------------------------------------------------------------

/// The address that is opened: as given when it names a scheme (holds `://`),
/// else with `https://` in front.
pub open spec fn normalized_url(url: Seq<char>) -> Seq<char> {
    if has_substring(url, "://"@) {
        url
    } else {
        "https://"@ + url
    }
}

/// The address that is opened for what the user typed.
pub fn normalize_url(url: String) -> (r: String)
    ensures
        r@ == normalized_url(url@),
{
    if contains_text(url.as_str(), "://") {
        url
    } else {
        let mut full = "https://".to_string();
        full.push_str(url.as_str());
        full
    }
}

/// The scripts that read the title and the address of the page.
pub open spec fn title_script() -> Seq<char> {
    "return document.title"@
}

pub open spec fn location_script() -> Seq<char> {
    "return window.location.href"@
}

/// What `open` prints once it knows the replies for the title and the address.
pub open spec fn open_result_step(title: JsonView, url: JsonView, json: bool) -> StepView {
    if json {
        StepView {
            output: seq![
                OutputView::Json(
                    object_view(seq![("title"@, value_or_self(title)), ("url"@, value_or_self(url))]),
                    false,
                ),
            ],
            next: NextView::Finish,
        }
    } else {
        StepView {
            output: seq![
                OutputView::Line("✓ "@ + value_text(title)),
                OutputView::Line("  "@ + value_text(url)),
            ],
            next: NextView::Finish,
        }
    }
}

/// Where `open` stands.
pub enum OpenStage {
    Start,
    Navigating,
    ReadingTitle,
    ReadingUrl { title: Json },
}

/// `open`: navigate, then read back the title and the address.
pub struct OpenFlow {
    pub url: String,
    pub json: bool,
    pub stage: OpenStage,
}

/// The request that navigates to an address.
pub open spec fn navigate_request(url: Seq<char>) -> RequestView {
    RequestView { command: "WebDriver:Navigate"@, params: object_view(seq![("url"@, JsonView::Str(url))]) }
}

pub fn navigate(url: &str) -> (r: Request)
    ensures
        r@ == navigate_request(url@),
{
    Request::new("WebDriver:Navigate", object1("url", json_str(url)))
}

/// Starts `open` for what the user typed.
pub fn open_url(url: String, json: bool) -> (r: OpenFlow)
    ensures
        r.url@ == normalized_url(url@),
        r.json == json,
        r.stage is Start,
{
    OpenFlow { url: normalize_url(url), json, stage: OpenStage::Start }
}

impl OpenFlow {
    pub fn step(self, event: Event) -> (r: (OpenFlow, Step))
        ensures
            r.0.url == self.url,
            r.0.json == self.json,
            match (self.stage, event) {
                (OpenStage::Start, Event::Begin) => r.0.stage is Navigating && r.1@ == quiet(
                    NextView::Send(navigate_request(self.url@)),
                ),
                (OpenStage::Navigating, Event::Reply(Ok(_))) => r.0.stage is ReadingTitle && r.1@ == quiet(
                    NextView::Send(script_request(title_script())),
                ),
                (OpenStage::ReadingTitle, Event::Reply(Ok(title))) => r.0.stage == OpenStage::ReadingUrl { title }
                    && r.1@ == quiet(NextView::Send(script_request(location_script()))),
                (OpenStage::ReadingUrl { title }, Event::Reply(Ok(url))) => r.1@ == open_result_step(
                    title@,
                    url@,
                    self.json,
                ),
                (OpenStage::Start, _) => r.1@ == unexpected_step(),
                (_, Event::Reply(Err(e))) => r.1@ == quiet(NextView::Fail(error_view(e))),
                _ => r.1@ == unexpected_step(),
            },
    {
        let OpenFlow { url, json, stage } = self;
        match (stage, event) {
            (OpenStage::Start, Event::Begin) => {
                let request = navigate(url.as_str());
                (OpenFlow { url, json, stage: OpenStage::Navigating }, quiet_step(Next::Send(request)))
            },
            (OpenStage::Navigating, Event::Reply(Ok(_))) => {
                let request = execute_script("return document.title");
                (OpenFlow { url, json, stage: OpenStage::ReadingTitle }, quiet_step(Next::Send(request)))
            },
            (OpenStage::ReadingTitle, Event::Reply(Ok(title))) => {
                let request = execute_script("return window.location.href");
                (OpenFlow { url, json, stage: OpenStage::ReadingUrl { title } }, quiet_step(Next::Send(request)))
            },
            (OpenStage::ReadingUrl { title }, Event::Reply(Ok(final_url))) => {
                let mut output: Vec<Output> = Vec::new();
                if json {
                    let value = object2("title", value_or_whole(&title), "url", value_or_whole(&final_url));
                    output.push(Output::Json { value, pretty: false });
                } else {
                    let mut first = "✓ ".to_string();
                    first.push_str(response_value_str(&title));
                    let mut second = "  ".to_string();
                    second.push_str(response_value_str(&final_url));
                    output.push(Output::Line(first));
                    output.push(Output::Line(second));
                }
                let step = Step { output, next: Next::Finish };
                assert(step@.output =~= open_result_step(title@, final_url@, json).output);
                (OpenFlow { url, json, stage: OpenStage::ReadingUrl { title } }, step)
            },
            (OpenStage::Start, _) => (OpenFlow { url, json, stage: OpenStage::Start }, unexpected()),
            (stage, Event::Reply(Err(e))) => (OpenFlow { url, json, stage }, quiet_step(Next::Fail(e))),
            (stage, _) => (OpenFlow { url, json, stage }, unexpected()),
        }
    }
}

// ---------------------------------------------------------------------------
// Evaluating a script
// ---------------------------------------------------------------------------

/// Starts `eval`: runs `return <script>` and prints its value as JSON,
/// compact with `json`, pretty otherwise.
pub fn eval_script(script: String, json: bool) -> (r: QueryFlow)
    ensures
        r.request matches Some(req) && req@ == script_request("return "@ + script@),
        r.output == (QueryOutput::Value { json }),
{
    let mut text = "return ".to_string();
    text.push_str(script.as_str());
    QueryFlow::new(execute_script(text.as_str()), QueryOutput::Value { json })
}

// ---------------------------------------------------------------------------
// Screenshots
// ---------------------------------------------------------------------------

/// The error the `base64` crate reports for input that is not base64.
#[verifier::external_type_specification]
#[verifier::external_body]
pub struct ExBase64DecodeError(base64::DecodeError);

/// What `base64::engine::general_purpose::STANDARD.decode` gives for its
/// input: the decoded bytes, or `None` when it reports an error.
pub uninterp spec fn base64_standard_decoded(input: Seq<u8>) -> Option<Seq<u8>>;

/// Calls `base64::engine::general_purpose::STANDARD.decode` (standard alphabet,
/// padding required). Its result is named, not described.
#[verifier::external_body]
fn base64_standard_decode(input: &[u8]) -> (r: Result<Vec<u8>, base64::DecodeError>)
    ensures
        r is Ok <==> base64_standard_decoded(input@) is Some,
        r matches Ok(bytes) ==> base64_standard_decoded(input@) == Some(bytes@),
{
    base64::Engine::decode(&base64::engine::general_purpose::STANDARD, input)
}

/// The message of a base64 decoding error (its `Display` text); nothing is
/// stated of the text.
#[verifier::external_body]
fn base64_error_text(error: &base64::DecodeError) -> String {
    error.to_string()
}

/// What follows the first occurrence of `separator`, if it occurs.
pub open spec fn after_first(bytes: Seq<u8>, separator: u8) -> Option<Seq<u8>>
    decreases bytes.len(),
{
    if bytes.len() == 0 {
        None
    } else if bytes[0] == separator {
        Some(bytes.drop_first())
    } else {
        after_first(bytes.drop_first(), separator)
    }
}

/// The base64 part of a screenshot: what follows the first comma (the end of
/// a `data:` URL prefix), or all of it when there is no comma.
pub open spec fn base64_payload(bytes: Seq<u8>) -> Seq<u8> {
    match after_first(bytes, 44) {
        Some(rest) => rest,
        None => bytes,
    }
}

/// The bytes of a base64 text, which may carry a `data:` URL prefix.
pub open spec fn decoded_screenshot(input: Seq<char>) -> Option<Seq<u8>> {
    base64_standard_decoded(base64_payload(vstd::utf8::encode_utf8(input)))
}

/// Decodes a base64 text, skipping a `data:` URL prefix up to the first comma.
pub fn base64_decode(input: &str) -> (r: Result<Vec<u8>, MarionetteError>)
    ensures
        match decoded_screenshot(input@) {
            Some(bytes) => r matches Ok(v) && v@ == bytes,
            None => r matches Err(MarionetteError::Caused { context: c, .. }) && c@ == "Failed to decode base64"@,
        },
{
    let bytes: &[u8] = input.as_bytes();
    let ghost all = bytes@;
    let mut i: usize = 0;
    assert(all.skip(0) =~= all);
    while i < bytes.len()
        invariant
            i <= bytes@.len(),
            all == bytes@,
            after_first(all, 44) == after_first(all.skip(i as int), 44),
        ensures
            i <= bytes@.len(),
            after_first(all, 44) == after_first(all.skip(i as int), 44),
            i < bytes@.len() ==> bytes@[i as int] == 44,
        decreases bytes@.len() - i,
    {
        let ghost rest = all.skip(i as int);
        assert(rest[0] == bytes@[i as int]);
        assert(rest.drop_first() =~= all.skip(i + 1));
        if bytes[i] == 44 {
            break;
        }
        i = i + 1;
    }
    let data: &[u8] = if i < bytes.len() {
        let tail = slice_subrange(bytes, i + 1, bytes.len());
        assert(tail@ =~= all.skip(i as int).drop_first());
        tail
    } else {
        assert(all.skip(i as int) =~= Seq::<u8>::empty());
        bytes
    };
    assert(data@ == base64_payload(all));
    match base64_standard_decode(data) {
        Ok(decoded) => Ok(decoded),
        Err(e) => Err(
            MarionetteError::Caused { context: "Failed to decode base64".to_string(), cause: base64_error_text(&e) },
        ),
    }
}

/// The parameters of `WebDriver:TakeScreenshot`.
pub open spec fn screenshot_request(full: bool) -> RequestView {
    RequestView {
        command: "WebDriver:TakeScreenshot"@,
        params: object_view(seq![("full"@, JsonView::Bool(full)), ("hash"@, JsonView::Bool(false))]),
    }
}

/// Where `screenshot` stands.
pub enum ScreenshotStage {
    Start,
    Requesting,
    Writing,
}

/// `screenshot`: take it, decode it, write it to `path`.
pub struct ScreenshotFlow {
    pub path: String,
    pub full: bool,
    pub stage: ScreenshotStage,
}

/// What `screenshot` does with the reply that carries the image: write the
/// decoded image, or fail (for data that is not base64, with the decoder's
/// message as the cause).
pub open spec fn screenshot_result_step(path: Seq<char>, result: JsonView, step: StepView) -> bool {
    match member_str(result, "value"@) {
        None => step == quiet(NextView::Fail(ErrorView::Failed("No screenshot data"@))),
        Some(data) => match decoded_screenshot(data) {
            None => {
                &&& step.output.len() == 0
                &&& step.next matches NextView::Fail(ErrorView::Caused(c, _))
                &&& c == "Failed to decode base64"@
            },
            Some(bytes) => step == quiet(NextView::WriteFile(path, bytes)),
        },
    }
}

/// Starts `screenshot`.
pub fn take_screenshot(path: String, full: bool) -> (r: ScreenshotFlow)
    ensures
        r.path == path,
        r.full == full,
        r.stage is Start,
{
    ScreenshotFlow { path, full, stage: ScreenshotStage::Start }
}

impl ScreenshotFlow {
    pub fn step(self, event: Event) -> (r: (ScreenshotFlow, Step))
        ensures
            r.0.path == self.path,
            r.0.full == self.full,
            match (self.stage, event) {
                (ScreenshotStage::Start, Event::Begin) => r.0.stage is Requesting && r.1@ == quiet(
                    NextView::Send(screenshot_request(self.full)),
                ),
                (ScreenshotStage::Requesting, Event::Reply(Ok(result))) => r.0.stage is Writing
                    && screenshot_result_step(self.path@, result@, r.1@),
                (ScreenshotStage::Requesting, Event::Reply(Err(e))) => r.1@ == quiet(
                    NextView::Fail(error_view(e)),
                ),
                (ScreenshotStage::Writing, Event::Written(Ok(()))) => r.1@ == say(
                    "✓ Screenshot saved to "@ + self.path@,
                    NextView::Finish,
                ),
                (ScreenshotStage::Writing, Event::Written(Err(e))) => r.1@ == quiet(
                    NextView::Fail(error_view(e)),
                ),
                _ => r.1@ == unexpected_step(),
            },
    {
        let ScreenshotFlow { path, full, stage } = self;
        match (stage, event) {
            (ScreenshotStage::Start, Event::Begin) => {
                let params = object2("full", Json::Bool(full), "hash", Json::Bool(false));
                let request = Request::new("WebDriver:TakeScreenshot", params);
                (ScreenshotFlow { path, full, stage: ScreenshotStage::Requesting }, quiet_step(Next::Send(request)))
            },
            (ScreenshotStage::Requesting, Event::Reply(Ok(result))) => {
                let data: &str = match result.get("value") {
                    Some(v) => match v.as_str() {
                        Some(d) => d,
                        None => {
                            return (ScreenshotFlow { path, full, stage: ScreenshotStage::Writing }, fail_with("No screenshot data"));
                        },
                    },
                    None => {
                        return (ScreenshotFlow { path, full, stage: ScreenshotStage::Writing }, fail_with("No screenshot data"));
                    },
                };
                match base64_decode(data) {
                    Ok(bytes) => {
                        let target = path.clone();
                        (ScreenshotFlow { path, full, stage: ScreenshotStage::Writing }, quiet_step(Next::WriteFile { path: target, bytes }))
                    },
                    Err(e) => (ScreenshotFlow { path, full, stage: ScreenshotStage::Writing }, quiet_step(Next::Fail(e))),
                }
            },
            (ScreenshotStage::Writing, Event::Written(Ok(()))) => {
                let mut line = "✓ Screenshot saved to ".to_string();
                line.push_str(path.as_str());
                (ScreenshotFlow { path, full, stage: ScreenshotStage::Writing }, say_step(line, Next::Finish))
            },
            (ScreenshotStage::Requesting, Event::Reply(Err(e))) => (ScreenshotFlow { path, full, stage: ScreenshotStage::Requesting }, quiet_step(Next::Fail(e))),
            (ScreenshotStage::Writing, Event::Written(Err(e))) => (ScreenshotFlow { path, full, stage: ScreenshotStage::Writing }, quiet_step(Next::Fail(e))),
            (stage, _) => (ScreenshotFlow { path, full, stage }, unexpected()),
        }
    }
}

// ---------------------------------------------------------------------------
// Waiting
// ---------------------------------------------------------------------------

/// How long `wait` keeps trying, in nanoseconds (30 seconds).
pub const WAIT_TIMEOUT_NANOS: u128 = 30_000_000_000;

/// How long `wait` sleeps between tries, in milliseconds.
pub const WAIT_POLL_MILLIS: u64 = 100;

/// `wait`: for a time, for an element, or for an address.
pub enum WaitFlow {
    /// Sleep this many milliseconds.
    Millis(u64),
    /// Until the selector finds an element.
    Selector(String),
    /// Until the current address contains the pattern.
    Url(String),
    /// Nothing to wait for.
    Nothing,
}

/// What `wait` waits for: a target that reads as a number of milliseconds,
/// else the target as a selector, else the address pattern, else nothing.
pub open spec fn wait_plan(target: Option<Seq<char>>, url: Option<Seq<char>>) -> WaitPlanView {
    match target {
        Some(t) => match parsed_unsigned(t, u64::MAX as nat) {
            Some(ms) => WaitPlanView::Millis(ms as u64),
            None => WaitPlanView::Selector(t),
        },
        None => match url {
            Some(u) => WaitPlanView::Url(u),
            None => WaitPlanView::Nothing,
        },
    }
}

pub enum WaitPlanView {
    Millis(u64),
    Selector(Seq<char>),
    Url(Seq<char>),
    Nothing,
}

impl View for WaitFlow {
    type V = WaitPlanView;

    open spec fn view(&self) -> WaitPlanView {
        match self {
            WaitFlow::Millis(ms) => WaitPlanView::Millis(*ms),
            WaitFlow::Selector(s) => WaitPlanView::Selector(s@),
            WaitFlow::Url(u) => WaitPlanView::Url(u@),
            WaitFlow::Nothing => WaitPlanView::Nothing,
        }
    }
}

/// Starts `wait`.
pub fn wait_for(target: Option<String>, url: Option<String>) -> (r: WaitFlow)
    ensures
        r@ == wait_plan(crate::cli::opt_text(target), crate::cli::opt_text(url)),
{
    match target {
        Some(t) => match parse_u64(t.as_str()) {
            Some(ms) => WaitFlow::Millis(ms),
            None => WaitFlow::Selector(t),
        },
        None => match url {
            Some(u) => WaitFlow::Url(u),
            None => WaitFlow::Nothing,
        },
    }
}

/// The request that reads the current address.
pub open spec fn current_url_request() -> RequestView {
    bare_request("WebDriver:GetCurrentURL"@)
}

/// What `wait` does on an event.
pub open spec fn wait_step(plan: WaitPlanView, event: Event) -> StepView {
    match plan {
        WaitPlanView::Millis(ms) => match event {
            Event::Begin => quiet(NextView::Sleep(ms)),
            Event::Woke(_) => say("✓ Waited "@ + decimal_text(ms as nat) + "ms"@, NextView::Finish),
            _ => unexpected_step(),
        },
        WaitPlanView::Selector(selector) => match event {
            Event::Begin => quiet(NextView::Send(find_element_request(selector))),
            Event::Reply(Ok(_)) => say("✓ Element found"@, NextView::Finish),
            Event::Reply(Err(_)) => quiet(NextView::Sleep(WAIT_POLL_MILLIS)),
            Event::Woke(elapsed) => if elapsed > WAIT_TIMEOUT_NANOS {
                quiet(NextView::Fail(ErrorView::Failed("Timeout waiting for element: "@ + selector)))
            } else {
                quiet(NextView::Send(find_element_request(selector)))
            },
            _ => unexpected_step(),
        },
        WaitPlanView::Url(pattern) => match event {
            Event::Begin => quiet(NextView::Send(current_url_request())),
            Event::Reply(Ok(result)) => if has_substring(value_text(result@), pattern) {
                say("✓ URL matched"@, NextView::Finish)
            } else {
                quiet(NextView::Sleep(WAIT_POLL_MILLIS))
            },
            Event::Reply(Err(e)) => quiet(NextView::Fail(error_view(e))),
            Event::Woke(elapsed) => if elapsed > WAIT_TIMEOUT_NANOS {
                quiet(NextView::Fail(ErrorView::Failed("Timeout waiting for URL: "@ + pattern)))
            } else {
                quiet(NextView::Send(current_url_request()))
            },
            _ => unexpected_step(),
        },
        WaitPlanView::Nothing => match event {
            Event::Begin => quiet(NextView::Finish),
            _ => unexpected_step(),
        },
    }
}

impl WaitFlow {
    pub fn step(self, event: Event) -> (r: (WaitFlow, Step))
        ensures
            r.0 == self,
            r.1@ == wait_step(self@, event),
    {
        let step = match (&self, event) {
            (WaitFlow::Millis(ms), Event::Begin) => quiet_step(Next::Sleep(*ms)),
            (WaitFlow::Millis(ms), Event::Woke(_)) => {
                let mut line = "✓ Waited ".to_string();
                line.push_str(decimal_string(*ms).as_str());
                line.push_str("ms");
                say_step(line, Next::Finish)
            },
            (WaitFlow::Selector(selector), Event::Begin) => quiet_step(Next::Send(find_element(selector.as_str()))),
            (WaitFlow::Selector(_), Event::Reply(Ok(_))) => say_step("✓ Element found".to_string(), Next::Finish),
            (WaitFlow::Selector(_), Event::Reply(Err(_))) => quiet_step(Next::Sleep(WAIT_POLL_MILLIS)),
            (WaitFlow::Selector(selector), Event::Woke(elapsed)) => {
                if elapsed > WAIT_TIMEOUT_NANOS {
                    let mut message = "Timeout waiting for element: ".to_string();
                    message.push_str(selector.as_str());
                    quiet_step(Next::Fail(MarionetteError::Failed(message)))
                } else {
                    quiet_step(Next::Send(find_element(selector.as_str())))
                }
            },
            (WaitFlow::Url(_), Event::Begin) => quiet_step(Next::Send(bare("WebDriver:GetCurrentURL"))),
            (WaitFlow::Url(pattern), Event::Reply(Ok(result))) => {
                if contains_text(response_value_str(&result), pattern.as_str()) {
                    say_step("✓ URL matched".to_string(), Next::Finish)
                } else {
                    quiet_step(Next::Sleep(WAIT_POLL_MILLIS))
                }
            },
            (WaitFlow::Url(_), Event::Reply(Err(e))) => quiet_step(Next::Fail(e)),
            (WaitFlow::Url(pattern), Event::Woke(elapsed)) => {
                if elapsed > WAIT_TIMEOUT_NANOS {
                    let mut message = "Timeout waiting for URL: ".to_string();
                    message.push_str(pattern.as_str());
                    quiet_step(Next::Fail(MarionetteError::Failed(message)))
                } else {
                    quiet_step(Next::Send(bare("WebDriver:GetCurrentURL")))
                }
            },
            (WaitFlow::Nothing, Event::Begin) => quiet_step(Next::Finish),
            _ => unexpected(),
        };
        (self, step)
    }
}

/// The text of a reply's `value` when that is a string (such as the address
/// in a `WebDriver:GetCurrentURL` reply), else the empty text.
pub open spec fn reply_address(result: JsonView) -> Seq<char> {
    match result.get("value"@) {
        Some(JsonView::Str(t)) => t,
        _ => Seq::empty(),
    }
}

/// `wait --url`: a reply whose address contains the pattern anywhere ends the
/// wait with "✓ URL matched"; any other reply sleeps 100 ms before asking
/// again. Once more than 30 s have passed the wait fails naming the pattern;
/// before that, waking up asks for the address again.
pub proof fn lemma_wait_url(pattern: Seq<char>, result: Json, elapsed: u128)
    ensures
        ({
            let address = reply_address(result@);
            let step = wait_step(WaitPlanView::Url(pattern), Event::Reply(Ok(result)));
            &&& (exists|i: int| 0 <= i <= address.len() - pattern.len() && #[trigger] address.skip(i).take(
                pattern.len() as int,
            ) == pattern) ==> step == (StepView {
                output: seq![OutputView::Line("✓ URL matched"@)],
                next: NextView::Finish,
            })
            &&& !(exists|i: int| 0 <= i <= address.len() - pattern.len() && #[trigger] address.skip(i).take(
                pattern.len() as int,
            ) == pattern) ==> step == (StepView { output: Seq::empty(), next: NextView::Sleep(100) })
        }),
        elapsed > 30_000_000_000 ==> wait_step(WaitPlanView::Url(pattern), Event::Woke(elapsed)) == (StepView {
            output: Seq::empty(),
            next: NextView::Fail(ErrorView::Failed("Timeout waiting for URL: "@ + pattern)),
        }),
        elapsed <= 30_000_000_000 ==> wait_step(WaitPlanView::Url(pattern), Event::Woke(elapsed)) == (StepView {
            output: Seq::empty(),
            next: NextView::Send(
                RequestView { command: "WebDriver:GetCurrentURL"@, params: JsonView::Object(Seq::empty()) },
            ),
        }),
{
    let address = reply_address(result@);
    reveal_strlit("");
    assert(value_text(result@) == address) by {
        reveal_strlit("");
        assert(""@ =~= Seq::<char>::empty());
        match result@.get("value"@) {
            Some(JsonView::Str(t)) => {},
            _ => {},
        }
    }
    if exists|i: int| 0 <= i <= address.len() - pattern.len() && #[trigger] address.skip(i).take(
        pattern.len() as int,
    ) == pattern {
        let i = choose|i: int| 0 <= i <= address.len() - pattern.len() && #[trigger] address.skip(i).take(
            pattern.len() as int,
        ) == pattern;
        assert(address.subrange(i, i + pattern.len()) =~= address.skip(i).take(pattern.len() as int));
        assert(occurs_at(address, pattern, i));
    } else {
        assert forall|i: int| !occurs_at(address, pattern, i) by {
            if occurs_at(address, pattern, i) {
                assert(address.subrange(i, i + pattern.len()) =~= address.skip(i).take(pattern.len() as int));
            }
        }
    }
}

/// `wait` for a selector: a reply that finds the element ends the wait with
/// "✓ Element found"; an error reply sleeps 100 ms before looking again. Once
/// more than 30 s have passed the wait fails naming the selector; before
/// that, waking up looks for the element again by CSS selector.
pub proof fn lemma_wait_selector(selector: Seq<char>, result: Json, error: MarionetteError, elapsed: u128)
    ensures
        wait_step(WaitPlanView::Selector(selector), Event::Reply(Ok(result))) == (StepView {
            output: seq![OutputView::Line("✓ Element found"@)],
            next: NextView::Finish,
        }),
        wait_step(WaitPlanView::Selector(selector), Event::Reply(Err(error))) == (StepView {
            output: Seq::empty(),
            next: NextView::Sleep(100),
        }),
        elapsed > 30_000_000_000 ==> wait_step(WaitPlanView::Selector(selector), Event::Woke(elapsed)) == (
        StepView {
            output: Seq::empty(),
            next: NextView::Fail(ErrorView::Failed("Timeout waiting for element: "@ + selector)),
        }),
        elapsed <= 30_000_000_000 ==> wait_step(WaitPlanView::Selector(selector), Event::Woke(elapsed)) == (
        StepView {
            output: Seq::empty(),
            next: NextView::Send(
                RequestView {
                    command: "WebDriver:FindElement"@,
                    params: JsonView::Object(
                        seq![("using"@, JsonView::Str("css selector"@)), ("value"@, JsonView::Str(selector))],
                    ),
                },
            ),
        }),
{
}

/// The request about element `id` that `command` names, with an extra
/// member after the id when there is one.
pub open spec fn element_call(command: Seq<char>, id: Seq<char>, extra: Option<(Seq<char>, Seq<char>)>) -> RequestView {
    RequestView {
        command,
        params: JsonView::Object(
            match extra {
                Some((k, v)) => seq![("id"@, JsonView::Str(id)), (k, JsonView::Str(v))],
                None => seq![("id"@, JsonView::Str(id))],
            },
        ),
    }
}

/// Once the element is found, each action sends its own command about that
/// element: a click clicks it; typing sends the text as keys; filling first
/// clears it and then sends the text as keys; reading the text, a property or
/// an attribute asks for that, by name.
pub proof fn lemma_element_actions(id: Seq<char>, text: String, name: String)
    ensures
        first_element_request(ElementAction::Click, id) == element_call("WebDriver:ElementClick"@, id, None),
        first_element_request(ElementAction::Type(text), id) == element_call(
            "WebDriver:ElementSendKeys"@,
            id,
            Some(("text"@, text@)),
        ),
        first_element_request(ElementAction::Fill(text), id) == element_call("WebDriver:ElementClear"@, id, None),
        send_keys_request(id, text@) == element_call("WebDriver:ElementSendKeys"@, id, Some(("text"@, text@))),
        first_element_request(ElementAction::Text, id) == element_call("WebDriver:GetElementText"@, id, None),
        first_element_request(ElementAction::Property(name), id) == element_call(
            "WebDriver:GetElementProperty"@,
            id,
            Some(("name"@, name@)),
        ),
        first_element_request(ElementAction::Attribute(name), id) == element_call(
            "WebDriver:GetElementAttribute"@,
            id,
            Some(("name"@, name@)),
        ),
{
}

/// After its last request succeeds, an action that changes the element
/// reports it ("✓ Clicked", "✓ Typed", "✓ Filled"), and one that reads the
/// element prints the text of the reply's `value`; either way the command ends.
pub proof fn lemma_element_results(text: String, name: String, result: JsonView)
    ensures
        element_result_step(ElementAction::Click, result) == (StepView {
            output: seq![OutputView::Line("✓ Clicked"@)],
            next: NextView::Finish,
        }),
        element_result_step(ElementAction::Type(text), result) == (StepView {
            output: seq![OutputView::Line("✓ Typed"@)],
            next: NextView::Finish,
        }),
        element_result_step(ElementAction::Fill(text), result) == (StepView {
            output: seq![OutputView::Line("✓ Filled"@)],
            next: NextView::Finish,
        }),
        element_result_step(ElementAction::Text, result) == (StepView {
            output: seq![OutputView::Line(reply_address(result))],
            next: NextView::Finish,
        }),
        element_result_step(ElementAction::Property(name), result) == element_result_step(ElementAction::Text, result),
        element_result_step(ElementAction::Attribute(name), result) == element_result_step(ElementAction::Text, result),
{
    reveal_strlit("");
    assert(value_text(result) == reply_address(result)) by {
        reveal_strlit("");
        assert(""@ =~= Seq::<char>::empty());
        match result.get("value"@) {
            Some(JsonView::Str(t)) => {},
            _ => {},
        }
    }
}

} // verus!
