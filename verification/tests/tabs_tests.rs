use firefox_cli::cli::TabsCommand;
use firefox_cli::flow::{Event, Next, Output};
use firefox_cli::json::{Json, JsonNumber};
use firefox_cli::protocol::MarionetteError;
use firefox_cli::tabs::{
    classify_tabs_command, handle_at_index, handle_tabs, tab_json, tab_output_line, TabsAction,
    TabsFlow,
};

fn s(text: &str) -> Json {
    Json::Str(text.to_string())
}

fn obj(entries: Vec<(&str, Json)>) -> Json {
    Json::Object(entries.into_iter().map(|(k, v)| (k.to_string(), v)).collect())
}

fn sent(next: &Next) -> String {
    match next {
        Next::Send(r) => r.command.clone(),
        _ => panic!("expected a request"),
    }
}

#[test]
fn tab_output_line_formats_tab_summary() {
    let tab = tab_json(3, "Docs", "https://docs.example", "window-3");
    assert_eq!(tab_output_line(&tab), "3: Docs - https://docs.example");
}

#[test]
fn handle_at_index_returns_string_handles_only() {
    let handles = vec![s("window-a"), Json::Number(JsonNumber::Unsigned(42))];
    assert_eq!(handle_at_index(&handles, 0), Some("window-a"));
    assert_eq!(handle_at_index(&handles, 1), None);
    assert_eq!(handle_at_index(&handles, 2), None);
}

#[test]
fn classify_tabs_command_maps_switch_index() {
    let action = classify_tabs_command(TabsCommand::Switch { index: 4 });
    match action {
        TabsAction::Switch { index } => assert_eq!(index, 4),
        _ => panic!("expected switch action"),
    }
}

#[test]
fn tabs_list_visits_every_tab_and_switches_back() {
    let mut flow = match handle_tabs(TabsCommand::List, false) {
        TabsFlow::List(f) => f,
        _ => panic!("expected a list"),
    };
    let replies = vec![
        obj(vec![("value", Json::Array(vec![s("w1"), Json::Null, s("w2")]))]),
        obj(vec![("value", s("w2"))]),
        Json::Null,
        obj(vec![("value", s("One"))]),
        obj(vec![("value", s("https://one"))]),
        Json::Null,
        obj(vec![("value", s("Two"))]),
        obj(vec![("value", s("https://two"))]),
        Json::Null,
    ];
    let expected = vec![
        "WebDriver:GetWindowHandles",
        "WebDriver:GetWindowHandle",
        "WebDriver:SwitchToWindow",
        "WebDriver:GetTitle",
        "WebDriver:GetCurrentURL",
        "WebDriver:SwitchToWindow",
        "WebDriver:GetTitle",
        "WebDriver:GetCurrentURL",
        "WebDriver:SwitchToWindow",
    ];
    let (f, step) = flow.step(Event::Begin);
    flow = f;
    assert_eq!(sent(&step.next), expected[0]);
    let mut last = None;
    for (i, reply) in replies.into_iter().enumerate() {
        let (f, step) = flow.step(Event::Reply(Ok(reply)));
        flow = f;
        if i + 1 < expected.len() {
            assert_eq!(sent(&step.next), expected[i + 1]);
        } else {
            last = Some(step);
        }
    }
    let step = last.expect("final step");
    assert!(matches!(step.next, Next::Finish));
    let lines: Vec<String> = step
        .output
        .iter()
        .map(|o| match o {
            Output::Line(l) => l.clone(),
            _ => panic!("expected lines"),
        })
        .collect();
    assert_eq!(lines, vec!["0: One - https://one".to_string(), "2: Two - https://two".to_string()]);
}

#[test]
fn tabs_switch_out_of_range_fails() {
    let flow = match handle_tabs(TabsCommand::Switch { index: 5 }, false) {
        TabsFlow::Switch(f) => f,
        _ => panic!("expected switch"),
    };
    let (flow, _) = flow.step(Event::Begin);
    let (_, step) = flow.step(Event::Reply(Ok(obj(vec![("value", Json::Array(vec![s("w1")]))]))));
    match step.next {
        Next::Fail(e) => assert_eq!(e.message(), "Tab index out of range"),
        _ => panic!("expected a failure"),
    }
}

#[test]
fn tabs_switch_prints_the_title() {
    let flow = match handle_tabs(TabsCommand::Switch { index: 1 }, false) {
        TabsFlow::Switch(f) => f,
        _ => panic!("expected switch"),
    };
    let (flow, _) = flow.step(Event::Begin);
    let (flow, step) = flow.step(Event::Reply(Ok(obj(vec![("value", Json::Array(vec![s("w1"), s("w2")]))]))));
    match &step.next {
        Next::Send(r) => {
            assert_eq!(r.command, "WebDriver:SwitchToWindow");
            assert!(matches!(&r.params, Json::Object(m) if matches!(&m[0].1, Json::Str(h) if h == "w2")));
        }
        _ => panic!("expected a request"),
    }
    let (flow, step) = flow.step(Event::Reply(Ok(Json::Null)));
    assert_eq!(sent(&step.next), "WebDriver:GetTitle");
    let (_, step) = flow.step(Event::Reply(Ok(obj(vec![("value", s("Two"))]))));
    assert!(matches!(&step.output[0], Output::Line(l) if l == "✓ Switched to tab 1: Two"));
}

#[test]
fn tabs_new_navigates_unless_blank() {
    match handle_tabs(TabsCommand::New { url: None }, false) {
        TabsFlow::New(f) => assert_eq!(f.pending.len(), 1),
        _ => panic!("expected new"),
    }
    match handle_tabs(TabsCommand::New { url: Some("https://x".to_string()) }, false) {
        TabsFlow::New(f) => {
            assert_eq!(f.pending.len(), 2);
            assert_eq!(f.pending[1].command, "WebDriver:Navigate");
            match &f.pending[1].params {
                Json::Object(entries) => {
                    assert_eq!(entries[0].0, "url");
                    assert!(matches!(&entries[0].1, Json::Str(u) if u == "https://x"));
                }
                _ => panic!("expected an object"),
            }
            assert_eq!(f.message, "✓ New tab created");
        }
        _ => panic!("expected new"),
    }
}

#[test]
fn tabs_close_reports_remote_errors() {
    let flow = match handle_tabs(TabsCommand::Close { index: None }, false) {
        TabsFlow::Close(f) => f,
        _ => panic!("expected close"),
    };
    let (flow, _) = flow.step(Event::Begin);
    let (flow, step) = flow.step(Event::Reply(Ok(obj(vec![("value", Json::Array(vec![s("w1")]))]))));
    assert_eq!(sent(&step.next), "WebDriver:CloseWindow");
    let err = MarionetteError::Remote { error_type: "no such window".to_string(), message: "gone".to_string() };
    let (_, step) = flow.step(Event::Reply(Err(err)));
    match step.next {
        Next::Fail(e) => assert_eq!(e.message(), "Marionette error (no such window): gone"),
        _ => panic!("expected a failure"),
    }
}

#[test]
fn tabs_list_in_json_switches_back_to_the_focused_tab() {
    let flow = match handle_tabs(TabsCommand::List, true) {
        TabsFlow::List(f) => f,
        _ => panic!("expected a list"),
    };
    let (flow, _) = flow.step(Event::Begin);
    let (flow, _) = flow.step(Event::Reply(Ok(obj(vec![("value", Json::Array(vec![s("a"), s("b")]))]))));
    let (mut flow, _) = flow.step(Event::Reply(Ok(obj(vec![("value", s("b"))]))));
    for reply in [Json::Null, obj(vec![("value", s("A"))]), obj(vec![("value", s("https://a"))]), Json::Null, obj(vec![("value", s("B"))])] {
        flow = flow.step(Event::Reply(Ok(reply))).0;
    }
    let (flow, step) = flow.step(Event::Reply(Ok(obj(vec![("value", s("https://b"))]))));
    match &step.next {
        Next::Send(request) => {
            assert_eq!(request.command, "WebDriver:SwitchToWindow");
            match &request.params {
                Json::Object(entries) => assert!(matches!(&entries[0].1, Json::Str(h) if h == "b")),
                _ => panic!("expected an object"),
            }
        }
        _ => panic!("expected the switch back"),
    }
    let (_, step) = flow.step(Event::Reply(Ok(Json::Null)));
    assert_eq!(step.output.len(), 1);
    match &step.output[0] {
        Output::Json { value: Json::Array(tabs), pretty } => {
            assert!(*pretty);
            assert_eq!(tabs.len(), 2);
        }
        _ => panic!("expected pretty JSON"),
    }
}
