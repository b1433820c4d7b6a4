//! Choosing session tabs and the text that lists them.
use vstd::prelude::*;
use crate::cli::{opt_text, SessionCommand};
use crate::session::{tabs_view, SessionTab, SessionTabView};
use crate::text::{
    contains_text, decimal_string, decimal_text, has_substring, lowercase, pad_left,
    pad_left_string, take_chars,
};

verus! {

broadcast use vstd::string::group_string_axioms;

// ---------------------------------------------------------------------------
// Search and limit
// ---------------------------------------------------------------------------

/// A tab matches a (lowercased) search term when the term occurs in its
/// lowercased title or its lowercased address.
pub open spec fn tab_matches(tab: SessionTabView, term_lower: Seq<char>) -> bool {
    has_substring(lowercase(tab.title), term_lower) || has_substring(lowercase(tab.url), term_lower)
}

/// The tabs that match the term, in their order.
pub open spec fn matching_tabs(tabs: Seq<SessionTabView>, term_lower: Seq<char>) -> Seq<SessionTabView>
    decreases tabs.len(),
{
    if tabs.len() == 0 {
        Seq::empty()
    } else {
        let rest = matching_tabs(tabs.drop_last(), term_lower);
        if tab_matches(tabs.last(), term_lower) {
            rest.push(tabs.last())
        } else {
            rest
        }
    }
}

/// At most `limit` tabs from the front, when there is a limit.
pub open spec fn limited(tabs: Seq<SessionTabView>, limit: Option<usize>) -> Seq<SessionTabView> {
    match limit {
        Some(n) => if n < tabs.len() {
            tabs.take(n as int)
        } else {
            tabs
        },
        None => tabs,
    }
}

/// The tabs kept by a case-insensitive search (when given), then cut to the limit.
pub open spec fn filtered_tabs(
    tabs: Seq<SessionTabView>,
    search: Option<Seq<char>>,
    limit: Option<usize>,
) -> Seq<SessionTabView> {
    let kept = match search {
        Some(term) => matching_tabs(tabs, lowercase(term)),
        None => tabs,
    };
    limited(kept, limit)
}

/// Search keeps only tabs that match the term.
pub proof fn lemma_matching_tabs_match(tabs: Seq<SessionTabView>, term_lower: Seq<char>)
    ensures
        forall|i: int| 0 <= i < matching_tabs(tabs, term_lower).len() ==> tab_matches(
            #[trigger] matching_tabs(tabs, term_lower)[i],
            term_lower,
        ),
    decreases tabs.len(),
{
    if tabs.len() > 0 {
        let rest = matching_tabs(tabs.drop_last(), term_lower);
        lemma_matching_tabs_match(tabs.drop_last(), term_lower);
        assert forall|i: int| 0 <= i < matching_tabs(tabs, term_lower).len() implies tab_matches(
            #[trigger] matching_tabs(tabs, term_lower)[i],
            term_lower,
        ) by {
            if i < rest.len() {
                assert(matching_tabs(tabs, term_lower)[i] == rest[i]);
            }
        }
    }
}

/// Search keeps every tab that matches the term.
pub proof fn lemma_matching_tabs_complete(tabs: Seq<SessionTabView>, term_lower: Seq<char>)
    ensures
        forall|i: int| 0 <= i < tabs.len() && tab_matches(#[trigger] tabs[i], term_lower) ==> matching_tabs(
            tabs,
            term_lower,
        ).contains(tabs[i]),
    decreases tabs.len(),
{
    if tabs.len() > 0 {
        let rest = tabs.drop_last();
        lemma_matching_tabs_complete(rest, term_lower);
        assert forall|i: int| 0 <= i < tabs.len() && tab_matches(#[trigger] tabs[i], term_lower) implies matching_tabs(
            tabs,
            term_lower,
        ).contains(tabs[i]) by {
            let m = matching_tabs(tabs, term_lower);
            let mr = matching_tabs(rest, term_lower);
            if i < tabs.len() - 1 {
                assert(rest[i] == tabs[i]);
                let k = choose|k: int| 0 <= k < mr.len() && mr[k] == tabs[i];
                assert(m[k] == mr[k]);
            } else {
                assert(m[m.len() - 1] == tabs.last());
            }
        }
    }
}

/// Searching the result of a search again with the same term changes nothing.
pub proof fn lemma_matching_tabs_idempotent(tabs: Seq<SessionTabView>, term_lower: Seq<char>)
    ensures
        matching_tabs(matching_tabs(tabs, term_lower), term_lower) == matching_tabs(tabs, term_lower),
    decreases tabs.len(),
{
    if tabs.len() > 0 {
        let rest = tabs.drop_last();
        lemma_matching_tabs_idempotent(rest, term_lower);
        let m = matching_tabs(tabs, term_lower);
        if tab_matches(tabs.last(), term_lower) {
            assert(m.drop_last() =~= matching_tabs(rest, term_lower));
        }
    }
}

/// With a limit `n`, the tabs kept are the first `min(n, m)` of the `m` tabs
/// that the search alone keeps: exactly `n` of them when the search keeps more.
pub proof fn lemma_filter_limit(tabs: Seq<SessionTabView>, search: Option<Seq<char>>, n: usize)
    ensures
        ({
            let all = filtered_tabs(tabs, search, None);
            let cut = filtered_tabs(tabs, search, Some(n));
            &&& n <= all.len() ==> cut.len() == n
            &&& all.len() <= n ==> cut.len() == all.len()
            &&& forall|i: int| 0 <= i < cut.len() ==> #[trigger] cut[i] == all[i]
        }),
{
}

/// Without a search or a limit every tab is kept, in order.
pub proof fn lemma_filter_keeps_all(tabs: Seq<SessionTabView>)
    ensures
        filtered_tabs(tabs, None, None) == tabs,
{
}

/// A search keeps exactly the tabs whose title or address contains the term,
/// ignoring case: every tab kept contains it, and every tab that contains it
/// is kept.
pub proof fn lemma_filter_search(tabs: Seq<SessionTabView>, term: Seq<char>)
    ensures
        ({
            let kept = filtered_tabs(tabs, Some(term), None);
            let t = lowercase(term);
            &&& forall|i: int| 0 <= i < kept.len() ==> {
                ||| has_substring(lowercase((#[trigger] kept[i]).title), t)
                ||| has_substring(lowercase(kept[i].url), t)
            }
            &&& forall|i: int| 0 <= i < tabs.len() && (has_substring(lowercase((#[trigger] tabs[i]).title), t)
                || has_substring(lowercase(tabs[i].url), t)) ==> kept.contains(tabs[i])
            &&& kept.len() <= tabs.len()
        }),
{
    let t = lowercase(term);
    lemma_matching_tabs_match(tabs, t);
    lemma_matching_tabs_complete(tabs, t);
    lemma_matching_tabs_len(tabs, t);
}

/// A search looks at each tab on its own and keeps the order: searching two
/// runs of tabs one after the other gives the two results one after the
/// other, and a single tab is kept exactly when its title or address contains
/// the term, ignoring case.
pub proof fn lemma_filter_search_in_order(a: Seq<SessionTabView>, b: Seq<SessionTabView>, x: SessionTabView, term: Seq<char>)
    ensures
        filtered_tabs(a + b, Some(term), None) == filtered_tabs(a, Some(term), None) + filtered_tabs(
            b,
            Some(term),
            None,
        ),
        filtered_tabs(seq![x], Some(term), None) == if has_substring(lowercase(x.title), lowercase(term))
            || has_substring(lowercase(x.url), lowercase(term)) {
            seq![x]
        } else {
            Seq::<SessionTabView>::empty()
        },
{
    lemma_matching_tabs_concat(a, b, lowercase(term));
    let t = lowercase(term);
    let one = seq![x];
    assert(one.drop_last() =~= Seq::<SessionTabView>::empty());
    assert(one.last() == x);
    assert(matching_tabs(one.drop_last(), t) == Seq::<SessionTabView>::empty());
    assert(Seq::<SessionTabView>::empty().push(x) =~= one);
    assert(matching_tabs(one, t) == if tab_matches(x, t) {
        one
    } else {
        Seq::<SessionTabView>::empty()
    });
}

proof fn lemma_matching_tabs_concat(a: Seq<SessionTabView>, b: Seq<SessionTabView>, t: Seq<char>)
    ensures
        matching_tabs(a + b, t) == matching_tabs(a, t) + matching_tabs(b, t),
    decreases b.len(),
{
    if b.len() == 0 {
        assert(a + b =~= a);
        assert(matching_tabs(a, t) + matching_tabs(b, t) =~= matching_tabs(a, t));
    } else {
        lemma_matching_tabs_concat(a, b.drop_last(), t);
        assert((a + b).drop_last() =~= a + b.drop_last());
        assert((a + b).last() == b.last());
        if tab_matches(b.last(), t) {
            assert(matching_tabs(a, t) + matching_tabs(b.drop_last(), t).push(b.last()) =~= (matching_tabs(a, t)
                + matching_tabs(b.drop_last(), t)).push(b.last()));
        }
    }
}

/// A search keeps no more tabs than there are.
proof fn lemma_matching_tabs_len(tabs: Seq<SessionTabView>, term_lower: Seq<char>)
    ensures
        matching_tabs(tabs, term_lower).len() <= tabs.len(),
    decreases tabs.len(),
{
    if tabs.len() > 0 {
        lemma_matching_tabs_len(tabs.drop_last(), term_lower);
    }
}

/// The default listing has two lines for every tab.
pub proof fn lemma_default_listing_len(tabs: Seq<SessionTabView>)
    ensures
        default_listing(tabs).len() == 2 * tabs.len(),
    decreases tabs.len(),
{
    if tabs.len() > 0 {
        lemma_default_listing_len(tabs.drop_last());
    }
}

/// The view of an optional string slice.
pub open spec fn opt_str(o: Option<&str>) -> Option<Seq<char>> {
    match o {
        Some(s) => Some(s@),
        None => None,
    }
}

/// Keeps the tabs whose title or address contains `search`, ignoring case,
/// then keeps at most `limit` of them.
pub fn filter_session_tabs(tabs: Vec<SessionTab>, search: Option<&str>, limit: Option<usize>) -> (r:
    Vec<SessionTab>)
    ensures
        tabs_view(r@) == filtered_tabs(tabs_view(tabs@), opt_str(search), limit),
{
    let ghost all = tabs_view(tabs@);
    let mut kept: Vec<SessionTab>;
    match search {
        Some(term) => {
            let term_lower: String = term.to_lowercase();
            let ghost t = lowercase(term@);
            kept = Vec::new();
            for tab in it: tabs.into_iter()
                invariant
                    it.seq() == tabs@,
                    all == tabs_view(tabs@),
                    term_lower@ == t,
                    tabs_view(kept@) == matching_tabs(all.take(it.index()), t),
            {
                let ghost i = it.index();
                assert(all.take(i + 1).drop_last() =~= all.take(i));
                assert(all.take(i + 1).last() == tab@);
                let title_lower: String = tab.title.as_str().to_lowercase();
                let url_lower: String = tab.url.as_str().to_lowercase();
                let hit = contains_text(title_lower.as_str(), term_lower.as_str())
                    || contains_text(url_lower.as_str(), term_lower.as_str());
                let ghost before = tabs_view(kept@);
                if hit {
                    kept.push(tab);
                    assert(tabs_view(kept@) =~= before.push(all.take(i + 1).last()));
                }
            }
            assert(all.take(all.len() as int) =~= all);
        },
        None => {
            kept = tabs;
        },
    }
    let ghost before_limit = tabs_view(kept@);
    match limit {
        Some(max_tabs) => {
            kept.truncate(max_tabs);
            assert(tabs_view(kept@) =~= limited(before_limit, limit));
        },
        None => {},
    }
    kept
}

/// The number of tabs.
pub fn session_tab_count(tabs: &[SessionTab]) -> (r: usize)
    ensures
        r == tabs@.len(),
{
    tabs.len()
}

// ---------------------------------------------------------------------------
// Listing text
// ---------------------------------------------------------------------------

/// What a session command prints: the tabs as JSON, or lines of text.
pub enum SessionOutput {
    Json(Vec<SessionTab>),
    Lines(Vec<String>),
}

pub enum SessionOutputView {
    Json(Seq<SessionTabView>),
    Lines(Seq<Seq<char>>),
}

/// The texts of a sequence of strings.
pub open spec fn lines_view(lines: Seq<String>) -> Seq<Seq<char>> {
    lines.map_values(|l: String| l@)
}

impl View for SessionOutput {
    type V = SessionOutputView;

    open spec fn view(&self) -> SessionOutputView {
        match self {
            SessionOutput::Json(tabs) => SessionOutputView::Json(tabs_view(tabs@)),
            SessionOutput::Lines(lines) => SessionOutputView::Lines(lines_view(lines@)),
        }
    }
}

/// The first line of the listing of the tab at 0-based `index`:
/// its number right-aligned in four columns, then at most 70 characters of its title.
pub open spec fn listing_title_line(index: nat, title: Seq<char>) -> Seq<char> {
    pad_left(decimal_text(index + 1), 4) + ". "@ + title.take(
        if title.len() < 70 {
            title.len() as int
        } else {
            70
        },
    )
}

/// The second line of a tab's listing: its address, indented.
pub open spec fn listing_url_line(url: Seq<char>) -> Seq<char> {
    "      "@ + url
}

/// The default listing: two lines per tab.
pub open spec fn default_listing(tabs: Seq<SessionTabView>) -> Seq<Seq<char>>
    decreases tabs.len(),
{
    if tabs.len() == 0 {
        Seq::empty()
    } else {
        default_listing(tabs.drop_last()) + seq![
            listing_title_line((tabs.len() - 1) as nat, tabs.last().title),
            listing_url_line(tabs.last().url),
        ]
    }
}

/// What the tabs are printed as: JSON, only addresses, only titles, or the default listing.
pub open spec fn session_listing(
    tabs: Seq<SessionTabView>,
    json: bool,
    urls_only: bool,
    titles_only: bool,
) -> SessionOutputView {
    if json {
        SessionOutputView::Json(tabs)
    } else if urls_only {
        SessionOutputView::Lines(tabs.map_values(|t: SessionTabView| t.url))
    } else if titles_only {
        SessionOutputView::Lines(tabs.map_values(|t: SessionTabView| t.title))
    } else {
        SessionOutputView::Lines(default_listing(tabs))
    }
}

/// The default listing of the tabs.
pub fn print_default_session_tabs(tabs: &[SessionTab]) -> (r: Vec<String>)
    ensures
        lines_view(r@) == default_listing(tabs_view(tabs@)),
{
    let ghost all = tabs_view(tabs@);
    let mut lines: Vec<String> = Vec::new();
    let mut i: usize = 0;
    while i < tabs.len()
        invariant
            i <= tabs@.len(),
            all == tabs_view(tabs@),
            lines_view(lines@) == default_listing(all.take(i as int)),
        decreases tabs@.len() - i,
    {
        let tab = &tabs[i];
        assert(all.take(i + 1).drop_last() =~= all.take(i as int));
        assert(all.take(i + 1).last() == tab@);
        let number = decimal_string((i as u64) + 1);
        let mut first = pad_left_string(number.as_str(), 4);
        first.push_str(". ");
        let title = take_chars(tab.title.as_str(), 70);
        first.push_str(title.as_str());
        let mut second = String::new();
        second.push_str("      ");
        second.push_str(tab.url.as_str());
        let ghost before = lines_view(lines@);
        lines.push(first);
        lines.push(second);
        assert(lines_view(lines@) =~= before + seq![
            listing_title_line(i as nat, tab.title@),
            listing_url_line(tab.url@),
        ]);
        i = i + 1;
    }
    assert(all.take(i as int) =~= all);
    lines
}

/// What `session list` prints for the given tabs.
pub fn print_session_tabs(tabs: Vec<SessionTab>, json: bool, urls_only: bool, titles_only: bool) -> (r:
    SessionOutput)
    ensures
        r@ == session_listing(tabs_view(tabs@), json, urls_only, titles_only),
{
    if json {
        return SessionOutput::Json(tabs);
    }
    if urls_only || titles_only {
        let ghost all = tabs_view(tabs@);
        let mut lines: Vec<String> = Vec::new();
        let mut i: usize = 0;
        while i < tabs.len()
            invariant
                i <= tabs@.len(),
                all == tabs_view(tabs@),
                lines@.len() == i,
                forall|k: int|
                    0 <= k < i ==> #[trigger] lines@[k]@ == if urls_only {
                        all[k].url
                    } else {
                        all[k].title
                    },
            decreases tabs@.len() - i,
        {
            if urls_only {
                lines.push(tabs[i].url.clone());
            } else {
                lines.push(tabs[i].title.clone());
            }
            i = i + 1;
        }
        let r = SessionOutput::Lines(lines);
        assert(lines_view(lines@) =~= match session_listing(all, json, urls_only, titles_only) {
            SessionOutputView::Lines(l) => l,
            _ => Seq::empty(),
        });
        return r;
    }
    SessionOutput::Lines(print_default_session_tabs(tabs.as_slice()))
}

/// What `session list` prints: the tabs chosen by search and limit, in the chosen form.
pub fn handle_session_list(
    tabs: Vec<SessionTab>,
    json: bool,
    urls_only: bool,
    titles_only: bool,
    search: Option<String>,
    limit: Option<usize>,
) -> (r: SessionOutput)
    ensures
        r@ == session_listing(
            filtered_tabs(tabs_view(tabs@), opt_text(search), limit),
            json,
            urls_only,
            titles_only,
        ),
{
    let term: Option<&str> = match &search {
        Some(s) => Some(s.as_str()),
        None => None,
    };
    let filtered_tabs = filter_session_tabs(tabs, term, limit);
    print_session_tabs(filtered_tabs, json, urls_only, titles_only)
}

/// What `session count` prints: the number of tabs.
pub fn handle_session_count(tabs: &[SessionTab]) -> (r: SessionOutput)
    ensures
        r@ == SessionOutputView::Lines(seq![decimal_text(tabs@.len())]),
{
    let count = session_tab_count(tabs);
    let mut lines: Vec<String> = Vec::new();
    lines.push(decimal_string(count as u64));
    assert(lines_view(lines@) =~= seq![decimal_text(tabs@.len())]);
    SessionOutput::Lines(lines)
}

// ---------------------------------------------------------------------------
// Session commands
// ---------------------------------------------------------------------------

/// A session command, decided.
pub enum SessionAction {
    List { urls_only: bool, titles_only: bool, search: Option<String>, limit: Option<usize> },
    Count,
}

/// The action a session command asks for.
pub fn classify_session_command(action: SessionCommand) -> (r: SessionAction)
    ensures
        match action {
            SessionCommand::List { urls_only, titles_only, search, limit } => r == SessionAction::List {
                urls_only,
                titles_only,
                search,
                limit,
            },
            SessionCommand::Count => r == SessionAction::Count,
        },
{
    match action {
        SessionCommand::List { urls_only, titles_only, search, limit } => SessionAction::List {
            urls_only,
            titles_only,
            search,
            limit,
        },
        SessionCommand::Count => SessionAction::Count,
    }
}

/// What a session action prints for the given tabs.
pub open spec fn session_action_output(
    action: SessionAction,
    tabs: Seq<SessionTabView>,
    json: bool,
) -> SessionOutputView {
    match action {
        SessionAction::List { urls_only, titles_only, search, limit } => session_listing(
            filtered_tabs(tabs, opt_text(search), limit),
            json,
            urls_only,
            titles_only,
        ),
        SessionAction::Count => SessionOutputView::Lines(seq![decimal_text(tabs.len())]),
    }
}

/// Carries out a session action on the given tabs.
pub fn execute_session_action(action: SessionAction, tabs: Vec<SessionTab>, json: bool) -> (r:
    SessionOutput)
    ensures
        r@ == session_action_output(action, tabs_view(tabs@), json),
{
    match action {
        SessionAction::List { urls_only, titles_only, search, limit } => handle_session_list(
            tabs,
            json,
            urls_only,
            titles_only,
            search,
            limit,
        ),
        SessionAction::Count => handle_session_count(tabs.as_slice()),
    }
}

/// The action of a session command, as a specification.
pub open spec fn session_command_action(action: SessionCommand) -> SessionAction {
    match action {
        SessionCommand::List { urls_only, titles_only, search, limit } => SessionAction::List {
            urls_only,
            titles_only,
            search,
            limit,
        },
        SessionCommand::Count => SessionAction::Count,
    }
}

/// Carries out a session command on the given tabs.
pub fn execute_session_command(action: SessionCommand, tabs: Vec<SessionTab>, json: bool) -> (r:
    SessionOutput)
    ensures
        r@ == session_action_output(session_command_action(action), tabs_view(tabs@), json),
{
    let session_action = classify_session_command(action);
    execute_session_action(session_action, tabs, json)
}

/// What `session` prints, given the tabs read from the session file.
pub fn handle_session(action: SessionCommand, json: bool, tabs: Vec<SessionTab>) -> (r: SessionOutput)
    ensures
        r@ == session_action_output(session_command_action(action), tabs_view(tabs@), json),
{
    execute_session_command(action, tabs, json)
}

} // verus!
