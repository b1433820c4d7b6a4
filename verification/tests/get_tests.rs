use firefox_cli::browser::{extract_element_id, response_value_str, ElementAction};
use firefox_cli::cli::GetCommand;
use firefox_cli::flow::{Event, Next, Output};
use firefox_cli::get::{
    classify_get_command, get_matching_elements_count, handle_get, inner_html_script, named_get_output,
    GetAction, GetFlow, NamedGetAction, QueryOutput,
};
use firefox_cli::json::{Json, JsonNumber};

fn s(text: &str) -> Json {
    Json::Str(text.to_string())
}

fn obj(entries: Vec<(&str, Json)>) -> Json {
    Json::Object(entries.into_iter().map(|(k, v)| (k.to_string(), v)).collect())
}

#[test]
fn extract_element_id_reads_webdriver_value() {
    let element = obj(vec![(
        "value",
        obj(vec![("element-6066-11e4-a52e-4f735466cecf", s("node-1"))]),
    )]);
    let element_id = extract_element_id(&element).ok().expect("element id should parse");
    assert_eq!(element_id, "node-1");
}

#[test]
fn response_value_str_returns_empty_when_not_string() {
    let scalar = obj(vec![("value", Json::Number(JsonNumber::Unsigned(42)))]);
    let missing = obj(vec![]);
    assert_eq!(response_value_str(&scalar), "");
    assert_eq!(response_value_str(&missing), "");
}

#[test]
fn named_get_output_formats_json_and_plain_modes() {
    assert_eq!(named_get_output("title", "Example", false), "Example");
    assert_eq!(named_get_output("title", "Example", true), r#"{"title":"Example"}"#);
}

#[test]
fn classify_get_command_maps_title_to_named_action() {
    let action = classify_get_command(GetCommand::Title);
    match action {
        GetAction::Named(NamedGetAction { webdriver_command, output_key }) => {
            assert_eq!(webdriver_command, "WebDriver:GetTitle");
            assert_eq!(output_key, "title");
        }
        _ => panic!("expected named action"),
    }
}

#[test]
fn named_output_escapes_json_strings() {
    assert_eq!(named_get_output("url", "a\"b\\c\n", true), "{\"url\":\"a\\\"b\\\\c\\n\"}");
    assert_eq!(
        inner_html_script("div[id=\"x\"]"),
        "return document.querySelector(\"div[id=\\\"x\\\"]\").innerHTML"
    );
}

#[test]
fn element_without_string_id_is_not_found() {
    let element = obj(vec![("value", obj(vec![("k", Json::Null)]))]);
    match extract_element_id(&element) {
        Err(e) => assert_eq!(e.message(), "Element not found"),
        Ok(_) => panic!("expected an error"),
    }
    assert!(extract_element_id(&obj(vec![])).is_err());
}

#[test]
fn count_reads_the_number_of_found_elements() {
    let reply = obj(vec![("value", Json::Array(vec![s("a"), s("b"), s("c")]))]);
    assert_eq!(get_matching_elements_count(&reply), 3);
    assert_eq!(get_matching_elements_count(&obj(vec![("value", s("x"))])), 0);
}

#[test]
fn get_title_sends_get_title_and_prints_the_value() {
    let flow = match handle_get(GetCommand::Title, true) {
        GetFlow::Query(q) => q,
        GetFlow::Element(_) => panic!("expected a query"),
    };
    let (flow, step) = flow.step(Event::Begin);
    match step.next {
        Next::Send(r) => assert_eq!(r.command, "WebDriver:GetTitle"),
        _ => panic!("expected a request"),
    }
    let (_, step) = flow.step(Event::Reply(Ok(obj(vec![("value", s("Docs"))]))));
    match &step.output[0] {
        Output::Line(l) => assert_eq!(l, r#"{"title":"Docs"}"#),
        _ => panic!("expected a line"),
    }
    assert!(matches!(step.next, Next::Finish));
}

#[test]
fn get_attr_finds_the_element_then_reads_the_attribute() {
    let flow = match handle_get(
        GetCommand::Attr { selector: "a.link".to_string(), name: "href".to_string() },
        false,
    ) {
        GetFlow::Element(e) => e,
        GetFlow::Query(_) => panic!("expected an element command"),
    };
    assert!(matches!(flow.action, ElementAction::Attribute(_)));
    let (flow, step) = flow.step(Event::Begin);
    match step.next {
        Next::Send(r) => assert_eq!(r.command, "WebDriver:FindElement"),
        _ => panic!("expected a request"),
    }
    let found = obj(vec![("value", obj(vec![("element-6066-11e4-a52e-4f735466cecf", s("n7"))]))]);
    let (flow, step) = flow.step(Event::Reply(Ok(found)));
    match step.next {
        Next::Send(r) => {
            assert_eq!(r.command, "WebDriver:GetElementAttribute");
            assert_eq!(response_value_str(&obj(vec![("value", s("x"))])), "x");
            match r.params {
                Json::Object(m) => {
                    assert_eq!(m[0].0, "id");
                    assert!(matches!(&m[0].1, Json::Str(v) if v == "n7"));
                    assert!(matches!(&m[1].1, Json::Str(v) if v == "href"));
                }
                _ => panic!("expected an object"),
            }
        }
        _ => panic!("expected a request"),
    }
    let (_, step) = flow.step(Event::Reply(Ok(obj(vec![("value", s("/home"))]))));
    assert!(matches!(&step.output[0], Output::Line(l) if l == "/home"));
}

#[test]
fn get_count_uses_find_elements() {
    match handle_get(GetCommand::Count { selector: "li".to_string() }, false) {
        GetFlow::Query(q) => {
            assert!(matches!(q.output, QueryOutput::Count));
            let (q, step) = q.step(Event::Begin);
            assert!(matches!(step.next, Next::Send(ref r) if r.command == "WebDriver:FindElements"));
            let (_, step) = q.step(Event::Reply(Ok(obj(vec![("value", Json::Array(vec![s("1"), s("2")]))]))));
            assert!(matches!(&step.output[0], Output::Line(l) if l == "2"));
        }
        GetFlow::Element(_) => panic!("expected a query"),
    }
}
