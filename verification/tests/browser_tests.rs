use firefox_cli::browser::{
    base64_decode, click_element, eval_script, fill_element, go_back, normalize_url, open_url,
    press_key, take_screenshot, wait_for, WaitFlow,
};
use firefox_cli::cli::{Cli, Command, SessionCommand};
use firefox_cli::commands::{run_cli, BrowserFlow, Plan};
use firefox_cli::flow::{Event, Next, Output};
use firefox_cli::json::Json;
use firefox_cli::protocol::MarionetteError;

fn s(text: &str) -> Json {
    Json::Str(text.to_string())
}

fn obj(entries: Vec<(&str, Json)>) -> Json {
    Json::Object(entries.into_iter().map(|(k, v)| (k.to_string(), v)).collect())
}

fn sent(next: &Next) -> String {
    match next {
        Next::Send(r) => r.command.clone(),
        _ => panic!("expected a request"),
    }
}

fn line(output: &Output) -> String {
    match output {
        Output::Line(l) => l.clone(),
        _ => panic!("expected a line"),
    }
}

#[test]
fn urls_without_scheme_get_https() {
    assert_eq!(normalize_url("example.com".to_string()), "https://example.com");
    assert_eq!(normalize_url("http://example.com".to_string()), "http://example.com");
    assert_eq!(normalize_url("about:blank".to_string()), "https://about:blank");
    assert_eq!(open_url("x.org".to_string(), false).url, "https://x.org");
}

#[test]
fn open_prints_title_and_address() {
    let flow = open_url("example.com".to_string(), false);
    let (flow, step) = flow.step(Event::Begin);
    assert_eq!(sent(&step.next), "WebDriver:Navigate");
    let (flow, step) = flow.step(Event::Reply(Ok(Json::Null)));
    assert_eq!(sent(&step.next), "WebDriver:ExecuteScript");
    let (flow, step) = flow.step(Event::Reply(Ok(obj(vec![("value", s("Example"))]))));
    assert_eq!(sent(&step.next), "WebDriver:ExecuteScript");
    let (_, step) = flow.step(Event::Reply(Ok(obj(vec![("value", s("https://example.com/"))]))));
    assert_eq!(line(&step.output[0]), "✓ Example");
    assert_eq!(line(&step.output[1]), "  https://example.com/");
    assert!(matches!(step.next, Next::Finish));
}

#[test]
fn open_with_json_prints_one_object() {
    let flow = open_url("example.com".to_string(), true);
    let (flow, _) = flow.step(Event::Begin);
    let (flow, _) = flow.step(Event::Reply(Ok(Json::Null)));
    let (flow, _) = flow.step(Event::Reply(Ok(obj(vec![("value", s("T"))]))));
    let (_, step) = flow.step(Event::Reply(Ok(s("no value member"))));
    match &step.output[0] {
        Output::Json { value: Json::Object(m), pretty } => {
            assert!(!pretty);
            assert_eq!(m[0].0, "title");
            assert!(matches!(&m[0].1, Json::Str(t) if t == "T"));
            assert!(matches!(&m[1].1, Json::Str(t) if t == "no value member"));
        }
        _ => panic!("expected json"),
    }
}

#[test]
fn simple_commands_send_and_confirm() {
    let flow = go_back();
    let (flow, step) = flow.step(Event::Begin);
    assert_eq!(sent(&step.next), "WebDriver:Back");
    let (_, step) = flow.step(Event::Reply(Ok(Json::Null)));
    assert_eq!(line(&step.output[0]), "✓ Back");

    let flow = press_key("Enter".to_string());
    let (flow, step) = flow.step(Event::Begin);
    assert_eq!(sent(&step.next), "WebDriver:PerformActions");
    let err = MarionetteError::Transport("connection reset".to_string());
    let (_, step) = flow.step(Event::Reply(Err(err)));
    match step.next {
        Next::Fail(e) => assert_eq!(e.message(), "connection reset"),
        _ => panic!("expected a failure"),
    }
}

#[test]
fn fill_clears_then_types() {
    let flow = fill_element("#q".to_string(), "hello".to_string());
    let (flow, step) = flow.step(Event::Begin);
    assert_eq!(sent(&step.next), "WebDriver:FindElement");
    let found = obj(vec![("value", obj(vec![("element-6066-11e4-a52e-4f735466cecf", s("e1"))]))]);
    let (flow, step) = flow.step(Event::Reply(Ok(found)));
    assert_eq!(sent(&step.next), "WebDriver:ElementClear");
    let (flow, step) = flow.step(Event::Reply(Ok(Json::Null)));
    assert_eq!(sent(&step.next), "WebDriver:ElementSendKeys");
    let (_, step) = flow.step(Event::Reply(Ok(Json::Null)));
    assert_eq!(line(&step.output[0]), "✓ Filled");
}

#[test]
fn click_fails_without_element() {
    let flow = click_element("#none".to_string());
    let (flow, _) = flow.step(Event::Begin);
    let (_, step) = flow.step(Event::Reply(Ok(obj(vec![("value", obj(vec![]))]))));
    match step.next {
        Next::Fail(e) => assert_eq!(e.message(), "Element not found"),
        _ => panic!("expected a failure"),
    }
}

#[test]
fn base64_decoding_skips_data_url_prefix() {
    assert_eq!(base64_decode("aGVsbG8=").ok(), Some(b"hello".to_vec()));
    assert_eq!(base64_decode("data:image/png;base64,aGVsbG8=").ok(), Some(b"hello".to_vec()));
    match base64_decode("not base64!") {
        Err(e) => {
            assert_eq!(e.message(), "Failed to decode base64");
            match e {
                MarionetteError::Caused { cause, .. } => assert!(cause.starts_with("Invalid symbol")),
                _ => panic!("expected the decoder's message as the cause"),
            }
        }
        Ok(_) => panic!("expected an error"),
    }
}

#[test]
fn screenshot_writes_the_decoded_image() {
    let flow = take_screenshot("/tmp/shot.png".to_string(), true);
    let (flow, step) = flow.step(Event::Begin);
    assert_eq!(sent(&step.next), "WebDriver:TakeScreenshot");
    let (flow, step) = flow.step(Event::Reply(Ok(obj(vec![("value", s("aGk="))]))));
    match step.next {
        Next::WriteFile { path, bytes } => {
            assert_eq!(path, "/tmp/shot.png");
            assert_eq!(bytes, b"hi".to_vec());
        }
        _ => panic!("expected a write"),
    }
    let (_, step) = flow.step(Event::Written(Ok(())));
    assert_eq!(line(&step.output[0]), "✓ Screenshot saved to /tmp/shot.png");

    let flow = take_screenshot("/tmp/x.png".to_string(), false);
    let (flow, _) = flow.step(Event::Begin);
    let (_, step) = flow.step(Event::Reply(Ok(obj(vec![]))));
    match step.next {
        Next::Fail(e) => assert_eq!(e.message(), "No screenshot data"),
        _ => panic!("expected a failure"),
    }
}

#[test]
fn eval_prints_the_value_as_json() {
    let flow = eval_script("1 + 1".to_string(), false);
    let (flow, step) = flow.step(Event::Begin);
    match &step.next {
        Next::Send(r) => {
            assert_eq!(r.command, "WebDriver:ExecuteScript");
            assert!(matches!(&r.params, Json::Object(m) if matches!(&m[0].1, Json::Str(t) if t == "return 1 + 1")));
        }
        _ => panic!("expected a request"),
    }
    let (_, step) = flow.step(Event::Reply(Ok(obj(vec![("value", Json::Bool(true))]))));
    assert!(matches!(&step.output[0], Output::Json { value: Json::Bool(true), pretty: true }));
}

#[test]
fn wait_chooses_time_selector_or_url() {
    assert!(matches!(wait_for(Some("250".to_string()), None), WaitFlow::Millis(250)));
    assert!(matches!(wait_for(Some("#id".to_string()), None), WaitFlow::Selector(_)));
    assert!(matches!(wait_for(None, Some("done".to_string())), WaitFlow::Url(_)));
    assert!(matches!(wait_for(None, None), WaitFlow::Nothing));

    let (flow, step) = WaitFlow::Millis(250).step(Event::Begin);
    assert!(matches!(step.next, Next::Sleep(250)));
    let (_, step) = flow.step(Event::Woke(250_000_000));
    assert_eq!(line(&step.output[0]), "✓ Waited 250ms");
}

#[test]
fn wait_for_selector_polls_until_timeout() {
    let flow = wait_for(Some("#late".to_string()), None);
    let (flow, step) = flow.step(Event::Begin);
    assert_eq!(sent(&step.next), "WebDriver:FindElement");
    let (flow, step) = flow.step(Event::Reply(Err(MarionetteError::Transport("no such element".to_string()))));
    assert!(matches!(step.next, Next::Sleep(100)));
    let (flow, step) = flow.step(Event::Woke(1_000_000_000));
    assert_eq!(sent(&step.next), "WebDriver:FindElement");
    let (flow, step) = flow.step(Event::Woke(30_000_000_001));
    match step.next {
        Next::Fail(e) => assert_eq!(e.message(), "Timeout waiting for element: #late"),
        _ => panic!("expected a timeout"),
    }
    let (_, step) = flow.step(Event::Reply(Ok(Json::Null)));
    assert_eq!(line(&step.output[0]), "✓ Element found");
}

#[test]
fn wait_for_url_checks_the_address() {
    let flow = wait_for(None, Some("/done".to_string()));
    let (flow, step) = flow.step(Event::Begin);
    assert_eq!(sent(&step.next), "WebDriver:GetCurrentURL");
    let (flow, step) = flow.step(Event::Reply(Ok(obj(vec![("value", s("https://x/start"))]))));
    assert!(matches!(step.next, Next::Sleep(100)));
    let (_, step) = flow.step(Event::Reply(Ok(obj(vec![("value", s("https://x/done"))]))));
    assert_eq!(line(&step.output[0]), "✓ URL matched");
}

#[test]
fn command_lines_choose_session_or_browser() {
    let cli = Cli { port: 2828, json: true, command: Command::Session { action: SessionCommand::Count } };
    assert!(matches!(run_cli(cli), Plan::Session { json: true, .. }));
    let cli = Cli { port: 4444, json: false, command: Command::Reload };
    match run_cli(cli) {
        Plan::Browser { port, flow: BrowserFlow::Simple(f) } => {
            assert_eq!(port, 4444);
            assert_eq!(f.pending[0].command, "WebDriver:Refresh");
            assert_eq!(f.message, "✓ Reloaded");
        }
        _ => panic!("expected a browser command"),
    }
}
