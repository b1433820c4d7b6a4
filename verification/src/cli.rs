//! The commands the tool understands, as plain values.
use vstd::prelude::*;

verus! {

/// The port Firefox listens on for Marionette unless told otherwise.
pub const DEFAULT_MARIONETTE_PORT: u16 = 2828;

/// A parsed command line.
pub struct Cli {
    /// Marionette port to connect to.
    pub port: u16,
    /// Output as JSON.
    pub json: bool,
    pub command: Command,
}

/// A top-level command.
#[allow(inconsistent_fields)]
pub enum Command {
    /// Navigate to a URL.
    Open { url: String },
    /// Go back in history.
    Back,
    /// Go forward in history.
    Forward,
    /// Reload the current page.
    Reload,
    /// Close the browser window.
    Close,
    /// Click an element.
    Click { selector: String },
    /// Type text into an element.
    Type { selector: String, text: String },
    /// Clear and fill an element.
    Fill { selector: String, text: String },
    /// Press a key.
    Press { key: String },
    /// Take a screenshot (PNG).
    Screenshot { path: String, full: bool },
    /// Evaluate JavaScript.
    Eval { script: String },
    /// Get page information.
    Get { what: GetCommand },
    /// Manage tabs through Marionette.
    Tabs { action: TabsCommand },
    /// List tabs from the session file.
    Session { action: SessionCommand },
    /// Wait for an element, a time, or a URL.
    Wait { target: Option<String>, url: Option<String> },
}

/// What `get` reads from the page.
#[allow(inconsistent_fields)]
pub enum GetCommand {
    Title,
    Url,
    Text { selector: Option<String> },
    Html { selector: String },
    Value { selector: String },
    Attr { selector: String, name: String },
    Count { selector: String },
}

/// What `tabs` does.
#[allow(inconsistent_fields)]
pub enum TabsCommand {
    List,
    New { url: Option<String> },
    Close { index: Option<usize> },
    Switch { index: usize },
}

/// What `session` does with the tabs of the session file.
pub enum SessionCommand {
    List { urls_only: bool, titles_only: bool, search: Option<String>, limit: Option<usize> },
    Count,
}

/// The text of an optional string.
pub open spec fn opt_text(o: Option<String>) -> Option<Seq<char>> {
    match o {
        Some(s) => Some(s@),
        None => None,
    }
}

} // verus!
