//! Tabs of a Firefox session-restore file: reading them out of the session
//! JSON, filtering them, and the text that lists them.
use vstd::prelude::*;
use crate::json::{member_str, opt_view, Json, JsonView, NumberView};

verus! {

/// One open tab found in a session file: the 1-based window it belongs to,
/// and the title and address of its current history entry.
pub struct SessionTab {
    pub window: usize,
    pub title: String,
    pub url: String,
}

pub struct SessionTabView {
    pub window: usize,
    pub title: Seq<char>,
    pub url: Seq<char>,
}

impl View for SessionTab {
    type V = SessionTabView;

    open spec fn view(&self) -> SessionTabView {
        SessionTabView { window: self.window, title: self.title@, url: self.url@ }
    }
}

/// The views of a sequence of tabs.
pub open spec fn tabs_view(tabs: Seq<SessionTab>) -> Seq<SessionTabView> {
    tabs.map_values(|t: SessionTab| t@)
}

/// The views of a sequence of JSON values.
pub open spec fn values_view(values: Seq<Json>) -> Seq<JsonView> {
    values.map_values(|v: Json| v@)
}

// ---------------------------------------------------------------------------
// Reading tabs out of the session JSON
// ---------------------------------------------------------------------------

/// The array under `key`, or nothing when the member is missing or not an array.
pub open spec fn array_member(v: JsonView, key: Seq<char>) -> Seq<JsonView> {
    match v.get(key) {
        Some(JsonView::Array(items)) => items,
        _ => Seq::empty(),
    }
}

/// The windows of a session.
pub open spec fn session_windows_of(session: JsonView) -> Seq<JsonView> {
    array_member(session, "windows"@)
}

/// The tabs of a window.
pub open spec fn window_tabs_of(window: JsonView) -> Seq<JsonView> {
    array_member(window, "tabs"@)
}

/// The 1-based index of a tab's current history entry: its `index` member
/// when that is a non-negative integer, else 1.
pub open spec fn entry_index(tab: JsonView) -> usize {
    match tab.get("index"@) {
        Some(v) => match v.as_u64() {
            Some(n) => n as usize,
            None => 1usize,
        },
        None => 1usize,
    }
}

/// The current history entry of a tab: the entry that `index` points at,
/// if the tab has an `entries` array and the index lies within it.
pub open spec fn active_entry(tab: JsonView) -> Option<JsonView> {
    match tab.get("entries"@) {
        Some(JsonView::Array(entries)) => {
            let index = entry_index(tab);
            if index == 0 || index > entries.len() {
                None
            } else {
                Some(entries[index - 1])
            }
        },
        _ => None,
    }
}

/// The tab that a history entry describes, with `"No title"` and the empty
/// address standing in for a missing or non-string title and url.
pub open spec fn tab_from_entry(entry: JsonView, window: usize) -> SessionTabView {
    SessionTabView {
        window,
        title: match member_str(entry, "title"@) {
            Some(t) => t,
            None => "No title"@,
        },
        url: match member_str(entry, "url"@) {
            Some(u) => u,
            None => ""@,
        },
    }
}

/// The tabs, in order, of those JSON tabs that have a current entry.
pub open spec fn tabs_of(tabs: Seq<JsonView>, window: usize) -> Seq<SessionTabView>
    decreases tabs.len(),
{
    if tabs.len() == 0 {
        Seq::empty()
    } else {
        let rest = tabs_of(tabs.drop_last(), window);
        match active_entry(tabs.last()) {
            Some(e) => rest.push(tab_from_entry(e, window)),
            None => rest,
        }
    }
}

/// The tabs of the window at 0-based position `window_index`.
pub open spec fn window_session_tabs(window: JsonView, window_index: usize) -> Seq<SessionTabView> {
    tabs_of(window_tabs_of(window), (window_index + 1) as usize)
}

/// The tabs of a sequence of windows, window after window.
pub open spec fn tabs_of_windows(windows: Seq<JsonView>) -> Seq<SessionTabView>
    decreases windows.len(),
{
    if windows.len() == 0 {
        Seq::empty()
    } else {
        tabs_of_windows(windows.drop_last()) + window_session_tabs(
            windows.last(),
            (windows.len() - 1) as usize,
        )
    }
}

/// All tabs of a session.
pub open spec fn session_tabs_of(session: JsonView) -> Seq<SessionTabView> {
    tabs_of_windows(session_windows_of(session))
}

/// Every tab read from one JSON window carries that window's number.
pub proof fn lemma_tabs_of_window(tabs: Seq<JsonView>, window: usize)
    ensures
        forall|i: int| 0 <= i < tabs_of(tabs, window).len() ==> (#[trigger] tabs_of(tabs, window)[i]).window
            == window,
    decreases tabs.len(),
{
    if tabs.len() > 0 {
        let rest = tabs_of(tabs.drop_last(), window);
        lemma_tabs_of_window(tabs.drop_last(), window);
        assert forall|i: int| 0 <= i < tabs_of(tabs, window).len() implies (#[trigger] tabs_of(tabs, window)[i]).window
            == window by {
            if i < rest.len() {
                assert(tabs_of(tabs, window)[i] == rest[i]);
            }
        }
    }
}

/// Every tab read from a sequence of windows carries the 1-based position of
/// its window, so its number lies between 1 and the number of windows.
pub proof fn lemma_tabs_of_windows(windows: Seq<JsonView>)
    requires
        windows.len() <= usize::MAX,
    ensures
        forall|i: int| 0 <= i < tabs_of_windows(windows).len() ==> 1 <= (
        #[trigger] tabs_of_windows(windows)[i]).window <= windows.len(),
    decreases windows.len(),
{
    if windows.len() > 0 {
        let rest = windows.drop_last();
        lemma_tabs_of_windows(rest);
        let last = window_session_tabs(windows.last(), (windows.len() - 1) as usize);
        lemma_tabs_of_window(window_tabs_of(windows.last()), windows.len() as usize);
        assert forall|i: int| 0 <= i < tabs_of_windows(windows).len() implies 1 <= (
        #[trigger] tabs_of_windows(windows)[i]).window <= windows.len() by {
            if i < tabs_of_windows(rest).len() {
                assert(tabs_of_windows(windows)[i] == tabs_of_windows(rest)[i]);
            } else {
                assert(tabs_of_windows(windows)[i] == last[i - tabs_of_windows(rest).len()]);
            }
        }
    }
}

/// Every tab of a session belongs to one of its windows: its window number
/// lies between 1 and the number of windows.
pub proof fn lemma_session_tab_windows(session: JsonView)
    requires
        session_windows_of(session).len() <= usize::MAX,
    ensures
        forall|i: int| 0 <= i < session_tabs_of(session).len() ==> 1 <= (
        #[trigger] session_tabs_of(session)[i]).window <= session_windows_of(session).len(),
{
    lemma_tabs_of_windows(session_windows_of(session));
}

/// A tab's current entry is the one its `index` points at, counting from 1;
/// an index of 0 or past the last entry gives none; a tab without an `index`
/// is on its first entry.
pub proof fn lemma_active_entry_follows_index(tab: JsonView, entries: Seq<JsonView>, k: u64)
    requires
        tab.get("entries"@) == Some(JsonView::Array(entries)),
        k <= usize::MAX,
    ensures
        tab.get("index"@) == Some(JsonView::Number(NumberView::Unsigned(k))) && 1 <= k <= entries.len()
            ==> active_entry(tab) == Some(entries[k - 1]),
        tab.get("index"@) == Some(JsonView::Number(NumberView::Unsigned(k))) && (k == 0 || k > entries.len())
            ==> active_entry(tab) is None,
        tab.get("index"@) is None && entries.len() > 0 ==> active_entry(tab) == Some(entries[0]),
{
}

/// The text of member `key` of an entry when it is a string.
pub open spec fn entry_text(entry: JsonView, key: Seq<char>) -> Option<Seq<char>> {
    match entry.get(key) {
        Some(JsonView::Str(t)) => Some(t),
        _ => None,
    }
}

/// Tabs are read one by one, in order: reading two runs of tabs gives the two
/// results one after the other. A single tab gives one session tab, with the
/// window number, the title (or "No title") and the address (or the empty
/// text) of its current entry, when it has a current entry, and none
/// otherwise.
pub proof fn lemma_tabs_read_in_order(a: Seq<JsonView>, b: Seq<JsonView>, t: JsonView, window: usize)
    ensures
        tabs_of(a + b, window) == tabs_of(a, window) + tabs_of(b, window),
        tabs_of(seq![t], window) == match active_entry(t) {
            Some(e) => seq![
                SessionTabView {
                    window,
                    title: match entry_text(e, "title"@) {
                        Some(x) => x,
                        None => "No title"@,
                    },
                    url: match entry_text(e, "url"@) {
                        Some(x) => x,
                        None => ""@,
                    },
                },
            ],
            None => Seq::<SessionTabView>::empty(),
        },
{
    lemma_tabs_of_concat(a, b, window);
    let one = seq![t];
    assert(one.drop_last() =~= Seq::<JsonView>::empty());
    assert(one.last() == t);
    assert(tabs_of(one.drop_last(), window) == Seq::<SessionTabView>::empty());
    match active_entry(t) {
        Some(e) => {
            assert(Seq::<SessionTabView>::empty().push(tab_from_entry(e, window)) =~= seq![tab_from_entry(e, window)]);
            assert(member_str(e, "title"@) == entry_text(e, "title"@));
            assert(member_str(e, "url"@) == entry_text(e, "url"@));
        },
        None => {},
    }
}

proof fn lemma_tabs_of_concat(a: Seq<JsonView>, b: Seq<JsonView>, window: usize)
    ensures
        tabs_of(a + b, window) == tabs_of(a, window) + tabs_of(b, window),
    decreases b.len(),
{
    if b.len() == 0 {
        assert(a + b =~= a);
        assert(tabs_of(a, window) + tabs_of(b, window) =~= tabs_of(a, window));
    } else {
        lemma_tabs_of_concat(a, b.drop_last(), window);
        assert((a + b).drop_last() =~= a + b.drop_last());
        assert((a + b).last() == b.last());
        match active_entry(b.last()) {
            Some(e) => {
                assert(tabs_of(a, window) + tabs_of(b.drop_last(), window).push(tab_from_entry(e, window)) =~= (
                tabs_of(a, window) + tabs_of(b.drop_last(), window)).push(tab_from_entry(e, window)));
            },
            None => {},
        }
    }
}

fn array_member_of<'a>(v: &'a Json, key: &str) -> (r: &'a [Json])
    ensures
        values_view(r@) == array_member(v@, key@),
{
    match v.get(key) {
        Some(m) => match m.as_array() {
            Some(items) => items.as_slice(),
            None => &[],
        },
        None => {
            assert(values_view(Seq::<Json>::empty()) =~= Seq::<JsonView>::empty());
            &[]
        },
    }
}

/// The windows of a session (empty when it has none).
pub fn session_windows(session: &Json) -> (r: &[Json])
    ensures
        values_view(r@) == session_windows_of(session@),
{
    array_member_of(session, "windows")
}

/// The tabs of a window (empty when it has none).
pub fn window_tabs(window: &Json) -> (r: &[Json])
    ensures
        values_view(r@) == window_tabs_of(window@),
{
    array_member_of(window, "tabs")
}

/// The current history entry of a tab.
pub fn active_tab_entry(tab: &Json) -> (r: Option<&Json>)
    ensures
        opt_view(r) == active_entry(tab@),
{
    let entries = match tab.get("entries") {
        Some(v) => match v.as_array() {
            Some(items) => items,
            None => return None,
        },
        None => return None,
    };
    let index_number: u64 = match tab.get("index") {
        Some(v) => match v.as_u64() {
            Some(n) => n,
            None => 1,
        },
        None => 1,
    };
    let index: usize = index_number as usize;
    if index == 0 || index > entries.len() {
        return None;
    }
    Some(&entries[index - 1])
}

/// The text of member `key` when it is a string, else `default`.
fn member_text_or(v: &Json, key: &str, default: &str) -> (r: String)
    ensures
        r@ == match member_str(v@, key@) {
            Some(t) => t,
            None => default@,
        },
{
    let text: &str = match v.get(key) {
        Some(m) => match m.as_str() {
            Some(t) => t,
            None => default,
        },
        None => default,
    };
    text.to_string()
}

/// The tab that a history entry describes.
pub fn session_tab_from_entry(entry: &Json, window: usize) -> (r: SessionTab)
    ensures
        r@ == tab_from_entry(entry@, window),
{
    SessionTab {
        window,
        title: member_text_or(entry, "title", "No title"),
        url: member_text_or(entry, "url", ""),
    }
}

/// The tabs of the window at 0-based position `window_index`, numbered from 1.
pub fn collect_window_session_tabs(window: &Json, window_index: usize) -> (r: Vec<SessionTab>)
    requires
        window_index < usize::MAX,
    ensures
        tabs_view(r@) == window_session_tabs(window@, window_index),
{
    let mut tabs: Vec<SessionTab> = Vec::new();
    extend_session_tabs_from_window(&mut tabs, window, window_index);
    assert(tabs_view(tabs@) =~= window_session_tabs(window@, window_index));
    tabs
}

/// Appends the tabs of the window at 0-based position `window_index`.
pub fn extend_session_tabs_from_window(
    tabs: &mut Vec<SessionTab>,
    window: &Json,
    window_index: usize,
)
    requires
        window_index < usize::MAX,
    ensures
        tabs_view(final(tabs)@) == tabs_view(old(tabs)@) + window_session_tabs(
            window@,
            window_index,
        ),
{
    let json_tabs = window_tabs(window);
    let number: usize = window_index + 1;
    let ghost start = tabs_view(tabs@);
    let ghost all = values_view(json_tabs@);
    let mut i: usize = 0;
    while i < json_tabs.len()
        invariant
            i <= json_tabs@.len(),
            all == values_view(json_tabs@),
            all == window_tabs_of(window@),
            number == window_index + 1,
            tabs_view(tabs@) == start + tabs_of(all.take(i as int), number),
        decreases json_tabs@.len() - i,
    {
        let ghost before = tabs_view(tabs@);
        assert(all.take(i + 1).drop_last() =~= all.take(i as int));
        assert(all.take(i + 1).last() == json_tabs@[i as int]@);
        match active_tab_entry(&json_tabs[i]) {
            Some(entry) => {
                tabs.push(session_tab_from_entry(entry, number));
                assert(tabs_view(tabs@) =~= before.push(tab_from_entry(entry@, number)));
            },
            None => {},
        }
        assert(tabs_view(tabs@) =~= start + tabs_of(all.take(i + 1), number));
        i = i + 1;
    }
    assert(all.take(i as int) =~= all);
}

/// All tabs of a session, window after window.
pub fn get_session_tabs(session: &Json) -> (r: Vec<SessionTab>)
    ensures
        tabs_view(r@) == session_tabs_of(session@),
{
    let mut tabs: Vec<SessionTab> = Vec::new();
    let windows = session_windows(session);
    let ghost all = values_view(windows@);
    let mut i: usize = 0;
    while i < windows.len()
        invariant
            i <= windows@.len(),
            all == values_view(windows@),
            all == session_windows_of(session@),
            tabs_view(tabs@) == tabs_of_windows(all.take(i as int)),
        decreases windows@.len() - i,
    {
        assert(all.take(i + 1).drop_last() =~= all.take(i as int));
        assert(all.take(i + 1).last() == windows@[i as int]@);
        extend_session_tabs_from_window(&mut tabs, &windows[i], i);
        i = i + 1;
    }
    assert(all.take(i as int) =~= all);
    tabs
}

} // verus!
