//! `tabs`: listing, opening, closing and switching the browser's tabs.
use vstd::prelude::*;
use crate::browser::{bare, bare_request, navigate, navigate_request, response_value_str, value_text};
use crate::cli::TabsCommand;
use crate::flow::{
    error_view, fail_with, quiet, quiet_step, say, say_step, unexpected, unexpected_step, ErrorView,
    Event, Next, NextView, Output, OutputView, Request, RequestView, SimpleFlow, Step, StepView,
};
use crate::json::{member_str, Json, JsonNumber, JsonView, NumberView};
use crate::protocol::{json_str, object1, object_view, member_text_or};
use crate::session::values_view;
use crate::text::{decimal_string, decimal_text, same_text};

verus! {

broadcast use vstd::string::group_string_axioms;

// ---------------------------------------------------------------------------
// Tabs as JSON
// ---------------------------------------------------------------------------

/// The JSON that describes one tab.
pub open spec fn tab_view(index: usize, title: Seq<char>, url: Seq<char>, handle: Seq<char>) -> JsonView {
    object_view(
        seq![
            ("index"@, JsonView::Number(NumberView::Unsigned(index as u64))),
            ("title"@, JsonView::Str(title)),
            ("url"@, JsonView::Str(url)),
            ("handle"@, JsonView::Str(handle)),
        ],
    )
}

/// The JSON that describes one tab.
pub fn tab_json(index: usize, title: &str, url: &str, handle: &str) -> (r: Json)
    ensures
        r@ == tab_view(index, title@, url@, handle@),
{
    let mut entries: Vec<(String, Json)> = Vec::new();
    entries.push(("index".to_string(), Json::Number(JsonNumber::Unsigned(index as u64))));
    entries.push(("title".to_string(), Json::Str(title.to_string())));
    entries.push(("url".to_string(), Json::Str(url.to_string())));
    entries.push(("handle".to_string(), Json::Str(handle.to_string())));
    let ghost ev = entries@;
    let r = Json::Object(entries);
    assert(r@->Object_0 =~= seq![
        (ev[0].0@, ev[0].1@),
        (ev[1].0@, ev[1].1@),
        (ev[2].0@, ev[2].1@),
        (ev[3].0@, ev[3].1@),
    ]);
    assert(r@ =~= tab_view(index, title@, url@, handle@));
    r
}

/// The line that lists a tab: `<index>: <title> - <url>`, with 0 and empty
/// texts standing in for missing members.
pub open spec fn tab_line(tab: JsonView) -> Seq<char> {
    let index: u64 = match tab.get("index"@) {
        Some(v) => match v.as_u64() {
            Some(n) => n,
            None => 0,
        },
        None => 0,
    };
    decimal_text(index as nat) + ": "@ + member_text_or(tab, "title"@, ""@) + " - "@ + member_text_or(
        tab,
        "url"@,
        ""@,
    )
}

/// The line that lists a tab.
pub fn tab_output_line(tab: &Json) -> (r: String)
    ensures
        r@ == tab_line(tab@),
{
    let index: u64 = match tab.get("index") {
        Some(v) => match v.as_u64() {
            Some(n) => n,
            None => 0,
        },
        None => 0,
    };
    let title: &str = match tab.get("title") {
        Some(v) => match v.as_str() {
            Some(t) => t,
            None => "",
        },
        None => "",
    };
    let url: &str = match tab.get("url") {
        Some(v) => match v.as_str() {
            Some(u) => u,
            None => "",
        },
        None => "",
    };
    let mut line = decimal_string(index);
    line.push_str(": ");
    line.push_str(title);
    line.push_str(" - ");
    line.push_str(url);
    line
}

/// The handle at a position, when there is one and it is a string.
pub open spec fn handle_at(handles: Seq<JsonView>, index: int) -> Option<Seq<char>> {
    if 0 <= index < handles.len() {
        handles[index].as_str()
    } else {
        None
    }
}

/// The handle at a position, when there is one and it is a string.
pub fn handle_at_index(handles: &[Json], index: usize) -> (r: Option<&str>)
    ensures
        match r {
            Some(h) => handle_at(values_view(handles@), index as int) == Some(h@),
            None => handle_at(values_view(handles@), index as int) is None,
        },
{
    if index < handles.len() {
        handles[index].as_str()
    } else {
        None
    }
}

/// What `tabs list` prints: the tabs as pretty JSON, or one line per tab.
pub open spec fn tabs_output(tabs: Seq<JsonView>, json: bool) -> StepView {
    if json {
        StepView { output: seq![OutputView::Json(JsonView::Array(tabs), true)], next: NextView::Finish }
    } else {
        StepView {
            output: tabs.map_values(|t: JsonView| OutputView::Line(tab_line(t))),
            next: NextView::Finish,
        }
    }
}

/// What `tabs list` prints.
pub fn print_tabs(tabs: &Vec<Json>, json: bool) -> (r: Step)
    ensures
        r@ == tabs_output(values_view(tabs@), json),
{
    if json {
        let ghost tv = values_view(tabs@);
        let mut copy: Vec<Json> = Vec::new();
        let mut i: usize = 0;
        while i < tabs.len()
            invariant
                i <= tabs@.len(),
                copy@.len() == i,
                forall|k: int| 0 <= k < i ==> (#[trigger] copy@[k])@ == tabs@[k]@,
            decreases tabs@.len() - i,
        {
            copy.push(tabs[i].deep_copy());
            i = i + 1;
        }
        let value = Json::Array(copy);
        assert(value@->Array_0 =~= tv);
        let mut output: Vec<Output> = Vec::new();
        output.push(Output::Json { value, pretty: true });
        let r = Step { output, next: Next::Finish };
        assert(r@.output =~= seq![OutputView::Json(JsonView::Array(tv), true)]);
        return r;
    }
    let mut output: Vec<Output> = Vec::new();
    let mut i: usize = 0;
    while i < tabs.len()
        invariant
            i <= tabs@.len(),
            output@.len() == i,
            forall|k: int| 0 <= k < i ==> (#[trigger] output@[k])@ == OutputView::Line(tab_line(tabs@[k]@)),
        decreases tabs@.len() - i,
    {
        output.push(Output::Line(tab_output_line(&tabs[i])));
        i = i + 1;
    }
    let r = Step { output, next: Next::Finish };
    assert(r@.output =~= values_view(tabs@).map_values(|t: JsonView| OutputView::Line(tab_line(t))));
    r
}

// ---------------------------------------------------------------------------
// Requests
// ---------------------------------------------------------------------------

/// The request that switches to the window with a handle.
pub open spec fn switch_request(handle: Seq<char>) -> RequestView {
    RequestView {
        command: "WebDriver:SwitchToWindow"@,
        params: object_view(seq![("handle"@, JsonView::Str(handle))]),
    }
}

pub fn switch_to_window(handle: &str) -> (r: Request)
    ensures
        r@ == switch_request(handle@),
{
    Request::new("WebDriver:SwitchToWindow", object1("handle", json_str(handle)))
}

/// The handles in a `WebDriver:GetWindowHandles` reply.
pub open spec fn handles_of(result: JsonView) -> Option<Seq<JsonView>> {
    match result.get("value"@) {
        Some(JsonView::Array(items)) => Some(items),
        _ => None,
    }
}

/// A copy of the handles in a `WebDriver:GetWindowHandles` reply.
pub fn window_handles(result: &Json) -> (r: Result<Vec<Json>, crate::protocol::MarionetteError>)
    ensures
        match handles_of(result@) {
            Some(hs) => r matches Ok(v) && values_view(v@) == hs,
            None => r matches Err(crate::protocol::MarionetteError::Failed(m)) && m@
                == "Failed to get window handles"@,
        },
{
    match result.get("value") {
        Some(v) => match v.as_array() {
            Some(items) => {
                let mut copy: Vec<Json> = Vec::new();
                let mut i: usize = 0;
                while i < items.len()
                    invariant
                        i <= items@.len(),
                        copy@.len() == i,
                        forall|k: int| 0 <= k < i ==> (#[trigger] copy@[k])@ == items@[k]@,
                    decreases items@.len() - i,
                {
                    copy.push(items[i].deep_copy());
                    i = i + 1;
                }
                assert(values_view(copy@) =~= values_view(items@));
                return Ok(copy);
            },
            None => {},
        },
        None => {},
    }
    Err(crate::protocol::MarionetteError::Failed("Failed to get window handles".to_string()))
}

// ---------------------------------------------------------------------------
// tabs list
// ---------------------------------------------------------------------------

/// The position of the first handle at or after `from` that is a string, or
/// the number of handles when there is none.
pub open spec fn first_string_from(handles: Seq<JsonView>, from: int) -> int
    decreases handles.len() - from,
{
    if from < 0 || from >= handles.len() {
        handles.len() as int
    } else if handles[from] is Str {
        from
    } else {
        first_string_from(handles, from + 1)
    }
}

/// The position `first_string_from` finds holds a string, when it is within the handles.
pub proof fn lemma_first_string_from(handles: Seq<JsonView>, from: int)
    requires
        0 <= from <= handles.len(),
    ensures
        from <= first_string_from(handles, from) <= handles.len(),
        first_string_from(handles, from) < handles.len() ==> handles[first_string_from(handles, from)] is Str,
    decreases handles.len() - from,
{
    if from < handles.len() && !(handles[from] is Str) {
        lemma_first_string_from(handles, from + 1);
    }
}

fn first_string_handle(handles: &Vec<Json>, from: usize) -> (r: usize)
    requires
        from <= handles@.len(),
    ensures
        r == first_string_from(values_view(handles@), from as int),
{
    let ghost hv = values_view(handles@);
    let mut j: usize = from;
    while j < handles.len()
        invariant
            from <= j <= handles@.len(),
            hv == values_view(handles@),
            first_string_from(hv, from as int) == first_string_from(hv, j as int),
        decreases handles@.len() - j,
    {
        assert(hv[j as int] == handles@[j as int]@);
        match &handles[j] {
            Json::Str(_) => {
                return j;
            },
            _ => {},
        }
        j = j + 1;
    }
    j
}

/// Where `tabs list` stands.
#[derive(Clone, Copy)]
pub enum ListPhase {
    Start,
    Handles,
    Current,
    Switching,
    Title,
    Url,
    Restoring,
}

/// `tabs list`: visit every tab to read its title and address, then switch
/// back to the tab that was current.
pub struct ListFlow {
    pub json: bool,
    pub phase: ListPhase,
    pub handles: Vec<Json>,
    /// The handle of the tab that was current.
    pub starting_handle: Option<String>,
    /// The position of the tab being visited.
    pub index: usize,
    /// The title of the tab being visited.
    pub title: String,
    /// The tabs visited so far.
    pub tabs: Vec<Json>,
}

/// How `tabs list` goes on after the tabs before `from` have been visited.
pub open spec fn list_advanced(before: ListFlow, from: int, after: ListFlow, step: StepView) -> bool {
    let hv = values_view(before.handles@);
    let j = first_string_from(hv, from);
    &&& after.json == before.json
    &&& after.handles == before.handles
    &&& after.starting_handle == before.starting_handle
    &&& after.tabs == before.tabs
    &&& if j < hv.len() {
        &&& after.phase == ListPhase::Switching
        &&& after.index == j
        &&& step == quiet(NextView::Send(switch_request(hv[j]->Str_0)))
    } else {
        match before.starting_handle {
            Some(h) => after.phase == ListPhase::Restoring && step == quiet(NextView::Send(switch_request(h@))),
            None => step == tabs_output(values_view(before.tabs@), before.json),
        }
    }
}

impl ListFlow {
    pub fn new(json: bool) -> (r: ListFlow)
        ensures
            r.json == json,
            r.phase == ListPhase::Start,
            r.tabs@.len() == 0,
    {
        ListFlow {
            json,
            phase: ListPhase::Start,
            handles: Vec::new(),
            starting_handle: None,
            index: 0,
            title: String::new(),
            tabs: Vec::new(),
        }
    }

    fn advance(self, from: usize) -> (r: (ListFlow, Step))
        requires
            from <= self.handles@.len(),
        ensures
            list_advanced(self, from as int, r.0, r.1@),
    {
        let j = first_string_handle(&self.handles, from);
        proof {
            lemma_first_string_from(values_view(self.handles@), from as int);
        }
        if j < self.handles.len() {
            assert(values_view(self.handles@)[j as int] == self.handles@[j as int]@);
            let request = match &self.handles[j] {
                Json::Str(h) => switch_to_window(h.as_str()),
                _ => switch_to_window(""),
            };
            let next = ListFlow { phase: ListPhase::Switching, index: j, ..self };
            return (next, quiet_step(Next::Send(request)));
        }
        match &self.starting_handle {
            Some(h) => {
                let request = switch_to_window(h.as_str());
                let next = ListFlow { phase: ListPhase::Restoring, ..self };
                (next, quiet_step(Next::Send(request)))
            },
            None => {
                let step = print_tabs(&self.tabs, self.json);
                (self, step)
            },
        }
    }

    pub fn step(self, event: Event) -> (r: (ListFlow, Step))
        ensures
            match (self.phase, event) {
                (ListPhase::Start, Event::Begin) => r.0.phase == ListPhase::Handles && r.0.json == self.json
                    && r.1@ == quiet(
                    NextView::Send(bare_request("WebDriver:GetWindowHandles"@)),
                ),
                (ListPhase::Handles, Event::Reply(Ok(result))) => match handles_of(result@) {
                    None => r.1@ == quiet(NextView::Fail(ErrorView::Failed("Failed to get window handles"@))),
                    Some(hs) => r.0.phase == ListPhase::Current && values_view(r.0.handles@) == hs
                        && r.0.tabs@.len() == 0 && r.0.json == self.json && r.1@ == quiet(
                        NextView::Send(bare_request("WebDriver:GetWindowHandle"@)),
                    ),
                },
                (ListPhase::Current, Event::Reply(Ok(result))) => exists|mid: ListFlow|
                    #![trigger list_advanced(mid, 0, r.0, r.1@)]
                    {
                        &&& mid.handles == self.handles
                        &&& mid.tabs == self.tabs
                        &&& mid.json == self.json
                        &&& crate::cli::opt_text(mid.starting_handle) == member_str(result@, "value"@)
                        &&& list_advanced(mid, 0, r.0, r.1@)
                    },
                (ListPhase::Switching, Event::Reply(Ok(_))) => r.0 == (ListFlow { phase: ListPhase::Title, ..self })
                    && r.1@ == quiet(NextView::Send(bare_request("WebDriver:GetTitle"@))),
                (ListPhase::Title, Event::Reply(Ok(title))) => {
                    &&& r.0.phase == ListPhase::Url
                    &&& r.0.title@ == value_text(title@)
                    &&& r.0.index == self.index
                    &&& r.0.json == self.json
                    &&& r.0.handles == self.handles
                    &&& r.0.starting_handle == self.starting_handle
                    &&& r.0.tabs == self.tabs
                    &&& r.1@ == quiet(NextView::Send(bare_request("WebDriver:GetCurrentURL"@)))
                },
                (ListPhase::Url, Event::Reply(Ok(url))) => if self.index >= self.handles@.len() {
                    r.1@ == unexpected_step()
                } else {
                    exists|mid: ListFlow|
                    #![trigger list_advanced(mid, self.index + 1, r.0, r.1@)]
                    {
                        &&& mid.handles == self.handles
                        &&& mid.starting_handle == self.starting_handle
                        &&& mid.json == self.json
                        &&& values_view(mid.tabs@) == values_view(self.tabs@).push(
                            tab_view(
                                self.index,
                                self.title@,
                                value_text(url@),
                                match handle_at(values_view(self.handles@), self.index as int) {
                                    Some(h) => h,
                                    None => Seq::empty(),
                                },
                            ),
                        )
                        &&& list_advanced(mid, self.index + 1, r.0, r.1@)
                    }
                },
                (ListPhase::Restoring, Event::Reply(Ok(_))) => r.1@ == tabs_output(
                    values_view(self.tabs@),
                    self.json,
                ),
                (ListPhase::Start, _) => r.1@ == unexpected_step(),
                (_, Event::Reply(Err(e))) => r.1@ == quiet(NextView::Fail(error_view(e))),
                _ => r.1@ == unexpected_step(),
            },
    {
        match (self.phase, event) {
            (ListPhase::Start, Event::Begin) => {
                (ListFlow { phase: ListPhase::Handles, ..self }, quiet_step(Next::Send(bare("WebDriver:GetWindowHandles"))))
            },
            (ListPhase::Handles, Event::Reply(Ok(result))) => {
                match window_handles(&result) {
                    Ok(handles) => {
                        let next = ListFlow { phase: ListPhase::Current, handles, tabs: Vec::new(), ..self };
                        (next, quiet_step(Next::Send(bare("WebDriver:GetWindowHandle"))))
                    },
                    Err(e) => (self, quiet_step(Next::Fail(e))),
                }
            },
            (ListPhase::Current, Event::Reply(Ok(result))) => {
                let starting_handle: Option<String> = match result.get("value") {
                    Some(v) => match v.as_str() {
                        Some(h) => Some(h.to_string()),
                        None => None,
                    },
                    None => None,
                };
                let mid = ListFlow { starting_handle, ..self };
                let ghost m = mid;
                assert(crate::cli::opt_text(m.starting_handle) == member_str(result@, "value"@));
                let r = mid.advance(0);
                assert(list_advanced(m, 0, r.0, r.1@));
                r
            },
            (ListPhase::Switching, Event::Reply(Ok(_))) => {
                (ListFlow { phase: ListPhase::Title, ..self }, quiet_step(Next::Send(bare("WebDriver:GetTitle"))))
            },
            (ListPhase::Title, Event::Reply(Ok(title))) => {
                let text = response_value_str(&title).to_string();
                (ListFlow { phase: ListPhase::Url, title: text, ..self }, quiet_step(Next::Send(bare("WebDriver:GetCurrentURL"))))
            },
            (ListPhase::Url, Event::Reply(Ok(url))) => {
                if self.index < self.handles.len() {
                    let ghost s0 = self;
                    let handle: &str = match handle_at_index(self.handles.as_slice(), self.index) {
                        Some(h) => h,
                        None => {
                            proof {
                                reveal_strlit("");
                            }
                            ""
                        },
                    };
                    let ghost hv = match handle_at(values_view(s0.handles@), s0.index as int) {
                        Some(h) => h,
                        None => Seq::empty(),
                    };
                    assert(handle@ == hv);
                    let tab = tab_json(self.index, self.title.as_str(), response_value_str(&url), handle);
                    assert(tab@ == tab_view(s0.index, s0.title@, value_text(url@), hv));
                    let mut tabs = self.tabs;
                    let ghost before = values_view(tabs@);
                    tabs.push(tab);
                    assert(values_view(tabs@) =~= before.push(tab@));
                    let from = self.index + 1;
                    let mid = ListFlow { tabs, ..self };
                    let ghost m = mid;
                    assert(values_view(m.tabs@) == values_view(s0.tabs@).push(tab_view(s0.index, s0.title@, value_text(url@), hv)));
                    let r = mid.advance(from);
                    assert(list_advanced(m, from as int, r.0, r.1@));
                    r
                } else {
                    (self, unexpected())
                }
            },
            (ListPhase::Restoring, Event::Reply(Ok(_))) => {
                let step = print_tabs(&self.tabs, self.json);
                (self, step)
            },
            (ListPhase::Start, _) => (self, unexpected()),
            (_, Event::Reply(Err(e))) => (self, quiet_step(Next::Fail(e))),
            _ => (self, unexpected()),
        }
    }
}

// ---------------------------------------------------------------------------
// tabs new
// ---------------------------------------------------------------------------

/// The address a new tab opens: the one given, or `about:blank`.
pub open spec fn new_tab_url(url: Option<Seq<char>>) -> Seq<char> {
    match url {
        Some(u) => u,
        None => "about:blank"@,
    }
}

/// The request that opens a new tab.
pub open spec fn new_window_request() -> RequestView {
    RequestView {
        command: "WebDriver:NewWindow"@,
        params: object_view(seq![("type"@, JsonView::Str("tab"@))]),
    }
}

/// The flow of `tabs new`: open a tab, then navigate it to the address unless
/// that is `about:blank`, then report the new tab.
pub open spec fn is_new_tab_flow(url: Option<String>, r: SimpleFlow) -> bool {
    let u = new_tab_url(crate::cli::opt_text(url));
    &&& !r.started
    &&& r.message@ == "✓ New tab created"@
    &&& r.pending@.len() >= 1
    &&& r.pending@[0]@ == new_window_request()
    &&& u == "about:blank"@ ==> r.pending@.len() == 1
    &&& u != "about:blank"@ ==> r.pending@.len() == 2 && r.pending@[1]@ == navigate_request(u)
}

/// Starts `tabs new`: open a tab, then navigate it unless the address is `about:blank`.
pub fn handle_tabs_new(url: Option<String>) -> (r: SimpleFlow)
    ensures
        is_new_tab_flow(url, r),
{
    let url: String = match url {
        Some(u) => u,
        None => "about:blank".to_string(),
    };
    let mut requests: Vec<Request> = Vec::new();
    requests.push(Request::new("WebDriver:NewWindow", object1("type", json_str("tab"))));
    if !same_text(url.as_str(), "about:blank") {
        requests.push(navigate(url.as_str()));
    }
    SimpleFlow::new(requests, "✓ New tab created".to_string())
}

// ---------------------------------------------------------------------------
// tabs close
// ---------------------------------------------------------------------------

/// Where `tabs close` stands.
#[derive(Clone, Copy)]
pub enum ClosePhase {
    Start,
    Handles,
    Switching,
    Closing,
}

/// `tabs close`: switch to the tab at `index` when it names one, then close
/// the current tab.
pub struct CloseFlow {
    pub index: Option<usize>,
    pub phase: ClosePhase,
}

/// What `tabs close` does once it knows the handles.
pub open spec fn close_after_handles(index: Option<usize>, handles: Seq<JsonView>) -> (ClosePhase, StepView) {
    match index {
        Some(i) => match handle_at(handles, i as int) {
            Some(h) => (ClosePhase::Switching, quiet(NextView::Send(switch_request(h)))),
            None => (ClosePhase::Closing, quiet(NextView::Send(bare_request("WebDriver:CloseWindow"@)))),
        },
        None => (ClosePhase::Closing, quiet(NextView::Send(bare_request("WebDriver:CloseWindow"@)))),
    }
}

/// Switches to the tab at `index`, when it names a tab.
pub fn switch_to_optional_index(handles: &[Json], index: Option<usize>) -> (r: Option<Request>)
    ensures
        match index {
            Some(i) => match handle_at(values_view(handles@), i as int) {
                Some(h) => r matches Some(req) && req@ == switch_request(h),
                None => r is None,
            },
            None => r is None,
        },
{
    let index = match index {
        Some(i) => i,
        None => return None,
    };
    match handle_at_index(handles, index) {
        Some(handle) => Some(switch_to_window(handle)),
        None => None,
    }
}

impl CloseFlow {
    pub fn step(self, event: Event) -> (r: (CloseFlow, Step))
        ensures
            r.0.index == self.index,
            match (self.phase, event) {
                (ClosePhase::Start, Event::Begin) => r.0.phase is Handles && r.1@ == quiet(
                    NextView::Send(bare_request("WebDriver:GetWindowHandles"@)),
                ),
                (ClosePhase::Handles, Event::Reply(Ok(result))) => match handles_of(result@) {
                    None => r.1@ == quiet(NextView::Fail(ErrorView::Failed("Failed to get window handles"@))),
                    Some(hs) => (r.0.phase, r.1@) == close_after_handles(self.index, hs),
                },
                (ClosePhase::Switching, Event::Reply(Ok(_))) => r.0.phase is Closing && r.1@ == quiet(
                    NextView::Send(bare_request("WebDriver:CloseWindow"@)),
                ),
                (ClosePhase::Closing, Event::Reply(Ok(_))) => r.1@ == say("✓ Tab closed"@, NextView::Finish),
                (ClosePhase::Start, _) => r.1@ == unexpected_step(),
                (_, Event::Reply(Err(e))) => r.1@ == quiet(NextView::Fail(error_view(e))),
                _ => r.1@ == unexpected_step(),
            },
    {
        let index = self.index;
        match (self.phase, event) {
            (ClosePhase::Start, Event::Begin) => (
                CloseFlow { index, phase: ClosePhase::Handles },
                quiet_step(Next::Send(bare("WebDriver:GetWindowHandles"))),
            ),
            (ClosePhase::Handles, Event::Reply(Ok(result))) => {
                let handles = match window_handles(&result) {
                    Ok(h) => h,
                    Err(e) => return (self, quiet_step(Next::Fail(e))),
                };
                match switch_to_optional_index(handles.as_slice(), index) {
                    Some(request) => (CloseFlow { index, phase: ClosePhase::Switching }, quiet_step(Next::Send(request))),
                    None => (
                        CloseFlow { index, phase: ClosePhase::Closing },
                        quiet_step(Next::Send(bare("WebDriver:CloseWindow"))),
                    ),
                }
            },
            (ClosePhase::Switching, Event::Reply(Ok(_))) => (
                CloseFlow { index, phase: ClosePhase::Closing },
                quiet_step(Next::Send(bare("WebDriver:CloseWindow"))),
            ),
            (ClosePhase::Closing, Event::Reply(Ok(_))) => (self, say_step("✓ Tab closed".to_string(), Next::Finish)),
            (ClosePhase::Start, _) => (self, unexpected()),
            (_, Event::Reply(Err(e))) => (self, quiet_step(Next::Fail(e))),
            _ => (self, unexpected()),
        }
    }
}

// ---------------------------------------------------------------------------
// tabs switch
// ---------------------------------------------------------------------------

/// Where `tabs switch` stands.
#[derive(Clone, Copy)]
pub enum SwitchPhase {
    Start,
    Handles,
    Switching,
    Title,
}

/// `tabs switch`: switch to the tab at `index` and print its title.
pub struct SwitchFlow {
    pub index: usize,
    pub phase: SwitchPhase,
}

impl SwitchFlow {
    pub fn step(self, event: Event) -> (r: (SwitchFlow, Step))
        ensures
            r.0.index == self.index,
            match (self.phase, event) {
                (SwitchPhase::Start, Event::Begin) => r.0.phase is Handles && r.1@ == quiet(
                    NextView::Send(bare_request("WebDriver:GetWindowHandles"@)),
                ),
                (SwitchPhase::Handles, Event::Reply(Ok(result))) => match handles_of(result@) {
                    None => r.1@ == quiet(NextView::Fail(ErrorView::Failed("Failed to get window handles"@))),
                    Some(hs) => match handle_at(hs, self.index as int) {
                        None => r.1@ == quiet(NextView::Fail(ErrorView::Failed("Tab index out of range"@))),
                        Some(h) => r.0.phase is Switching && r.1@ == quiet(NextView::Send(switch_request(h))),
                    },
                },
                (SwitchPhase::Switching, Event::Reply(Ok(_))) => r.0.phase is Title && r.1@ == quiet(
                    NextView::Send(bare_request("WebDriver:GetTitle"@)),
                ),
                (SwitchPhase::Title, Event::Reply(Ok(title))) => r.1@ == say(
                    "✓ Switched to tab "@ + decimal_text(self.index as nat) + ": "@ + value_text(title@),
                    NextView::Finish,
                ),
                (SwitchPhase::Start, _) => r.1@ == unexpected_step(),
                (_, Event::Reply(Err(e))) => r.1@ == quiet(NextView::Fail(error_view(e))),
                _ => r.1@ == unexpected_step(),
            },
    {
        let index = self.index;
        match (self.phase, event) {
            (SwitchPhase::Start, Event::Begin) => (
                SwitchFlow { index, phase: SwitchPhase::Handles },
                quiet_step(Next::Send(bare("WebDriver:GetWindowHandles"))),
            ),
            (SwitchPhase::Handles, Event::Reply(Ok(result))) => {
                let handles = match window_handles(&result) {
                    Ok(h) => h,
                    Err(e) => return (self, quiet_step(Next::Fail(e))),
                };
                match handle_at_index(handles.as_slice(), index) {
                    Some(handle) => (
                        SwitchFlow { index, phase: SwitchPhase::Switching },
                        quiet_step(Next::Send(switch_to_window(handle))),
                    ),
                    None => (self, fail_with("Tab index out of range")),
                }
            },
            (SwitchPhase::Switching, Event::Reply(Ok(_))) => (
                SwitchFlow { index, phase: SwitchPhase::Title },
                quiet_step(Next::Send(bare("WebDriver:GetTitle"))),
            ),
            (SwitchPhase::Title, Event::Reply(Ok(title))) => {
                let mut line = "✓ Switched to tab ".to_string();
                line.push_str(decimal_string(index as u64).as_str());
                line.push_str(": ");
                line.push_str(response_value_str(&title));
                (self, say_step(line, Next::Finish))
            },
            (SwitchPhase::Start, _) => (self, unexpected()),
            (_, Event::Reply(Err(e))) => (self, quiet_step(Next::Fail(e))),
            _ => (self, unexpected()),
        }
    }
}

// ---------------------------------------------------------------------------
// Classifying and starting `tabs`
// ---------------------------------------------------------------------------

/// A `tabs` command, decided.
pub enum TabsAction {
    List,
    New { url: Option<String> },
    Close { index: Option<usize> },
    Switch { index: usize },
}

/// Decides what a `tabs` command does.
pub fn classify_tabs_command(action: TabsCommand) -> (r: TabsAction)
    ensures
        match action {
            TabsCommand::List => r is List,
            TabsCommand::New { url } => r == TabsAction::New { url },
            TabsCommand::Close { index } => r == TabsAction::Close { index },
            TabsCommand::Switch { index } => r == TabsAction::Switch { index },
        },
{
    match action {
        TabsCommand::List => TabsAction::List,
        TabsCommand::New { url } => TabsAction::New { url },
        TabsCommand::Close { index } => TabsAction::Close { index },
        TabsCommand::Switch { index } => TabsAction::Switch { index },
    }
}

/// A `tabs` command in progress.
pub enum TabsFlow {
    List(ListFlow),
    New(SimpleFlow),
    Close(CloseFlow),
    Switch(SwitchFlow),
}

/// The flow that starts a decided `tabs` command.
pub open spec fn is_tabs_flow(action: TabsAction, json: bool, r: TabsFlow) -> bool {
    match action {
        TabsAction::List => r matches TabsFlow::List(f) && (f.json == json && f.phase == ListPhase::Start
            && f.tabs@.len() == 0),
        TabsAction::New { url } => r matches TabsFlow::New(f) && is_new_tab_flow(url, f),
        TabsAction::Close { index } => r matches TabsFlow::Close(f) && (f.index == index && f.phase is Start),
        TabsAction::Switch { index } => r matches TabsFlow::Switch(f) && (f.index == index && f.phase is Start),
    }
}

/// Starts a decided `tabs` command.
pub fn execute_tabs_action(action: TabsAction, json: bool) -> (r: TabsFlow)
    ensures
        is_tabs_flow(action, json, r),
{
    match action {
        TabsAction::List => TabsFlow::List(ListFlow::new(json)),
        TabsAction::New { url } => TabsFlow::New(handle_tabs_new(url)),
        TabsAction::Close { index } => TabsFlow::Close(CloseFlow { index, phase: ClosePhase::Start }),
        TabsAction::Switch { index } => TabsFlow::Switch(SwitchFlow { index, phase: SwitchPhase::Start }),
    }
}

/// The decided form of a `tabs` command.
pub open spec fn tabs_command_action(action: TabsCommand) -> TabsAction {
    match action {
        TabsCommand::List => TabsAction::List,
        TabsCommand::New { url } => TabsAction::New { url },
        TabsCommand::Close { index } => TabsAction::Close { index },
        TabsCommand::Switch { index } => TabsAction::Switch { index },
    }
}

/// Starts a `tabs` command.
pub fn execute_tabs_command(action: TabsCommand, json: bool) -> (r: TabsFlow)
    ensures
        is_tabs_flow(tabs_command_action(action), json, r),
{
    let tabs_action = classify_tabs_command(action);
    execute_tabs_action(tabs_action, json)
}

/// Starts a `tabs` command.
pub fn handle_tabs(action: TabsCommand, json: bool) -> (r: TabsFlow)
    ensures
        is_tabs_flow(tabs_command_action(action), json, r),
{
    execute_tabs_command(action, json)
}

/// The request that switches to the tab with handle `h`.
pub open spec fn switch_call(h: Seq<char>) -> RequestView {
    RequestView {
        command: "WebDriver:SwitchToWindow"@,
        params: JsonView::Object(seq![("handle"@, JsonView::Str(h))]),
    }
}

/// `tabs close` with an index that names a tab (a string handle at that
/// position) first switches to that tab, and closes the focused tab only once
/// the switch is answered; with no index, or one that names no tab, it closes
/// the focused tab at once.
pub proof fn lemma_close_targets_the_indexed_tab(index: Option<usize>, handles: Seq<JsonView>)
    ensures
        ({
            let after = close_after_handles(index, handles);
            let close_now = StepView {
                output: Seq::empty(),
                next: NextView::Send(
                    RequestView { command: "WebDriver:CloseWindow"@, params: JsonView::Object(Seq::empty()) },
                ),
            };
            match index {
                Some(i) => if i < handles.len() && handles[i as int] is Str {
                    &&& after.0 is Switching
                    &&& after.1 == (StepView {
                        output: Seq::empty(),
                        next: NextView::Send(switch_call(handles[i as int]->Str_0)),
                    })
                } else {
                    after.0 is Closing && after.1 == close_now
                },
                None => after.0 is Closing && after.1 == close_now,
            }
        }),
        bare_request("WebDriver:CloseWindow"@) == (RequestView {
            command: "WebDriver:CloseWindow"@,
            params: JsonView::Object(Seq::empty()),
        }),
{
}

/// `tabs switch` goes to the tab at the index when the handle there is a
/// string, and otherwise fails; the tab at an index is the string handle at
/// that position.
pub proof fn lemma_switch_targets_the_indexed_tab(index: int, handles: Seq<JsonView>, h: Seq<char>)
    ensures
        handle_at(handles, index) == Some(h) <==> (0 <= index < handles.len() && handles[index] == JsonView::Str(h)),
        switch_request(h) == switch_call(h),
{
}

/// `tabs new` opens a tab, then navigates it to the address given (when it
/// is not `about:blank`); without an address the tab stays on `about:blank`.
pub proof fn lemma_new_tab_requests(url: Seq<char>)
    ensures
        new_tab_url(Some(url)) == url,
        new_tab_url(None) == "about:blank"@,
        new_window_request() == (RequestView {
            command: "WebDriver:NewWindow"@,
            params: JsonView::Object(seq![("type"@, JsonView::Str("tab"@))]),
        }),
        navigate_request(url) == (RequestView {
            command: "WebDriver:Navigate"@,
            params: JsonView::Object(seq![("url"@, JsonView::Str(url))]),
        }),
{
}

} // verus!
