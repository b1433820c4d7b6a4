//! From a parsed command line to what runs.
use vstd::prelude::*;
use crate::browser::{
    click_element, close_browser, eval_script, fill_element, go_back, go_forward, is_bare_command,
    key_press_params, normalized_url, open_url, press_key, reload_page, script_request, take_screenshot,
    type_into_element, wait_for, wait_plan, ElementAction, ElementFlow, OpenFlow, ScreenshotFlow, WaitFlow,
};
use crate::cli::{opt_text, Cli, Command, SessionCommand};
use crate::flow::{RequestView, SimpleFlow};
use crate::get::{handle_get, is_get_flow, GetFlow, QueryFlow, QueryOutput};
use crate::tabs::{handle_tabs, is_tabs_flow, tabs_command_action, TabsFlow};

verus! {

/// A browser command in progress.
pub enum BrowserFlow {
    Simple(SimpleFlow),
    Element(ElementFlow),
    Query(QueryFlow),
    Get(GetFlow),
    Open(OpenFlow),
    Screenshot(ScreenshotFlow),
    Wait(WaitFlow),
    Tabs(TabsFlow),
}

/// The flow that a browser command starts.
pub open spec fn is_browser_flow(command: Command, json: bool, r: BrowserFlow) -> bool {
    match command {
        Command::Open { url } => r matches BrowserFlow::Open(f) && (f.url@ == normalized_url(url@) && f.json
            == json && f.stage is Start),
        Command::Back => r matches BrowserFlow::Simple(f) && is_bare_command(f, "WebDriver:Back"@, "✓ Back"@),
        Command::Forward => r matches BrowserFlow::Simple(f) && is_bare_command(
            f,
            "WebDriver:Forward"@,
            "✓ Forward"@,
        ),
        Command::Reload => r matches BrowserFlow::Simple(f) && is_bare_command(
            f,
            "WebDriver:Refresh"@,
            "✓ Reloaded"@,
        ),
        Command::Close => r matches BrowserFlow::Simple(f) && is_bare_command(
            f,
            "WebDriver:CloseWindow"@,
            "✓ Closed"@,
        ),
        Command::Click { selector } => r matches BrowserFlow::Element(f) && (f.selector == selector
            && f.action is Click && f.stage is Start),
        Command::Type { selector, text } => r matches BrowserFlow::Element(f) && (f.selector == selector
            && f.action == ElementAction::Type(text) && f.stage is Start),
        Command::Fill { selector, text } => r matches BrowserFlow::Element(f) && (f.selector == selector
            && f.action == ElementAction::Fill(text) && f.stage is Start),
        Command::Press { key } => r matches BrowserFlow::Simple(f) && (!f.started && f.pending@.len() == 1
            && f.pending@[0]@ == (RequestView {
            command: "WebDriver:PerformActions"@,
            params: key_press_params(key@),
        }) && f.message@ == "✓ Pressed "@ + key@),
        Command::Screenshot { path, full } => r matches BrowserFlow::Screenshot(f) && (f.path == path
            && f.full == full && f.stage is Start),
        Command::Eval { script } => r matches BrowserFlow::Query(f) && ((f.request matches Some(req)
            && req@ == script_request("return "@ + script@)) && f.output == (QueryOutput::Value { json })),
        Command::Get { what } => r matches BrowserFlow::Get(f) && is_get_flow(what, json, f),
        Command::Tabs { action } => r matches BrowserFlow::Tabs(f) && is_tabs_flow(
            tabs_command_action(action),
            json,
            f,
        ),
        Command::Wait { target, url } => r matches BrowserFlow::Wait(f) && f@ == wait_plan(
            opt_text(target),
            opt_text(url),
        ),
        Command::Session { .. } => false,
    }
}

/// Starts a browser command (any command but `session`).
pub fn run_browser_command(command: Command, json: bool) -> (r: BrowserFlow)
    requires
        !(command is Session),
    ensures
        is_browser_flow(command, json, r),
{
    match command {
        Command::Open { url } => BrowserFlow::Open(open_url(url, json)),
        Command::Back => BrowserFlow::Simple(go_back()),
        Command::Forward => BrowserFlow::Simple(go_forward()),
        Command::Reload => BrowserFlow::Simple(reload_page()),
        Command::Close => BrowserFlow::Simple(close_browser()),
        Command::Click { selector } => BrowserFlow::Element(click_element(selector)),
        Command::Type { selector, text } => BrowserFlow::Element(type_into_element(selector, text)),
        Command::Fill { selector, text } => BrowserFlow::Element(fill_element(selector, text)),
        Command::Press { key } => BrowserFlow::Simple(press_key(key)),
        Command::Screenshot { path, full } => BrowserFlow::Screenshot(take_screenshot(path, full)),
        Command::Eval { script } => BrowserFlow::Query(eval_script(script, json)),
        Command::Get { what } => BrowserFlow::Get(handle_get(what, json)),
        Command::Tabs { action } => BrowserFlow::Tabs(handle_tabs(action, json)),
        Command::Wait { target, url } => BrowserFlow::Wait(wait_for(target, url)),
        Command::Session { .. } => BrowserFlow::Wait(WaitFlow::Nothing),
    }
}

/// What a command line runs: the session file reader, or a browser command on a port.
pub enum Plan {
    Session { action: SessionCommand, json: bool },
    Browser { port: u16, flow: BrowserFlow },
}

/// Decides what a command line runs.
pub fn run_cli(cli: Cli) -> (r: Plan)
    ensures
        match cli.command {
            Command::Session { action } => r == Plan::Session { action, json: cli.json },
            _ => r matches Plan::Browser { port, flow } && (port == cli.port && is_browser_flow(
                cli.command,
                cli.json,
                flow,
            )),
        },
{
    let Cli { command, port, json } = cli;
    match command {
        Command::Session { action } => Plan::Session { action, json },
        other => Plan::Browser { port, flow: run_browser_command(other, json) },
    }
}

} // verus!
