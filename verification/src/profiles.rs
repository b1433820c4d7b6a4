//! Where Firefox keeps its profiles, and which session-recovery file is the newest.
use vstd::prelude::*;
use crate::text::chars_of;

verus! {

broadcast use vstd::string::group_string_axioms;

/// `base` joined with the relative path `rel`, as `Path::join` does on Unix:
/// a `/` goes between them unless `base` is empty or already ends with one.
pub open spec fn joined(base: Seq<char>, rel: Seq<char>) -> Seq<char> {
    if base.len() == 0 {
        rel
    } else if base.last() == '/' {
        base + rel
    } else {
        base + seq!['/'] + rel
    }
}

/// Joins a relative path onto a base path.
pub fn join_path(base: &str, rel: &str) -> (r: String)
    ensures
        r@ == joined(base@, rel@),
{
    let b = chars_of(base);
    let mut out: String = base.to_string();
    if b.len() > 0 && b[b.len() - 1] != '/' {
        out.push('/');
    }
    out.push_str(rel);
    out
}

/// The three directories under the home directory where Firefox keeps profiles:
/// the snap, the flatpak, and the classic location.
pub fn firefox_profile_bases(home: &str) -> (r: [String; 3])
    ensures
        r@[0]@ == joined(home@, "snap/firefox/common/.mozilla/firefox"@),
        r@[1]@ == joined(home@, ".var/app/org.mozilla.firefox/.mozilla/firefox"@),
        r@[2]@ == joined(home@, ".mozilla/firefox"@),
{
    [
        join_path(home, "snap/firefox/common/.mozilla/firefox"),
        join_path(home, ".var/app/org.mozilla.firefox/.mozilla/firefox"),
        join_path(home, ".mozilla/firefox"),
    ]
}

/// A name is hidden when it starts with a dot.
pub open spec fn is_hidden_name(name: Seq<char>) -> bool {
    name.len() > 0 && name[0] == '.'
}

/// A profile directory counts when it is a directory with a name that is not hidden.
pub fn is_visible_profile_dir(is_dir: bool, file_name: Option<&str>) -> (r: bool)
    ensures
        r == (is_dir && match file_name {
            Some(name) => !is_hidden_name(name@),
            None => false,
        }),
{
    if !is_dir {
        return false;
    }
    match file_name {
        Some(name) => {
            let chars = chars_of(name);
            !(chars.len() > 0 && chars[0] == '.')
        },
        None => false,
    }
}

/// The session-recovery file of a profile directory.
pub open spec fn recovery_path(profile_dir: Seq<char>) -> Seq<char> {
    joined(profile_dir, "sessionstore-backups/recovery.jsonlz4"@)
}

/// The path of the session-recovery file of a profile directory.
pub fn recovery_file_path(profile_dir: &str) -> (r: String)
    ensures
        r@ == recovery_path(profile_dir@),
{
    join_path(profile_dir, "sessionstore-backups/recovery.jsonlz4")
}

/// The session-recovery file of a profile directory, when it exists.
pub fn find_recovery_file(profile_dir: &str, recovery_exists: bool) -> (r: Option<String>)
    ensures
        match r {
            Some(p) => recovery_exists && p@ == recovery_path(profile_dir@),
            None => !recovery_exists,
        },
{
    let recovery = recovery_file_path(profile_dir);
    if recovery_exists {
        Some(recovery)
    } else {
        None
    }
}

/// One entry of a profiles directory, as found on disk.
pub struct ProfileEntry {
    pub path: String,
    pub is_dir: bool,
    /// The last component of the path, if it has one.
    pub file_name: Option<String>,
    /// Whether the entry's session-recovery file exists.
    pub recovery_exists: bool,
}

/// The entry is a visible profile directory that has a session-recovery file.
pub open spec fn entry_has_recovery(e: ProfileEntry) -> bool {
    &&& e.is_dir
    &&& match e.file_name {
        Some(n) => !is_hidden_name(n@),
        None => false,
    }
    &&& e.recovery_exists
}

/// The session-recovery files of the visible profile directories among the entries, in order.
pub open spec fn recovery_files_of(entries: Seq<ProfileEntry>) -> Seq<Seq<char>>
    decreases entries.len(),
{
    if entries.len() == 0 {
        Seq::empty()
    } else {
        let rest = recovery_files_of(entries.drop_last());
        if entry_has_recovery(entries.last()) {
            rest.push(recovery_path(entries.last().path@))
        } else {
            rest
        }
    }
}

/// The texts of a sequence of strings.
pub open spec fn texts(v: Seq<String>) -> Seq<Seq<char>> {
    v.map_values(|s: String| s@)
}

/// The session-recovery files in one profiles directory. `None` stands for a
/// directory that does not exist or cannot be read, which holds none.
pub fn recovery_files_in_base(listing: Option<&[ProfileEntry]>) -> (r: Vec<String>)
    ensures
        texts(r@) == match listing {
            Some(entries) => recovery_files_of(entries@),
            None => Seq::empty(),
        },
{
    let mut found: Vec<String> = Vec::new();
    let entries = match listing {
        Some(entries) => entries,
        None => {
            assert(texts(found@) =~= Seq::<Seq<char>>::empty());
            return found;
        },
    };
    let mut i: usize = 0;
    while i < entries.len()
        invariant
            i <= entries@.len(),
            texts(found@) == recovery_files_of(entries@.take(i as int)),
        decreases entries@.len() - i,
    {
        let entry = &entries[i];
        assert(entries@.take(i + 1).drop_last() =~= entries@.take(i as int));
        assert(entries@.take(i + 1).last() == *entry);
        let name: Option<&str> = match &entry.file_name {
            Some(n) => Some(n.as_str()),
            None => None,
        };
        if is_visible_profile_dir(entry.is_dir, name) {
            let ghost before = texts(found@);
            match find_recovery_file(entry.path.as_str(), entry.recovery_exists) {
                Some(path) => {
                    found.push(path);
                    assert(texts(found@) =~= before.push(recovery_path(entry.path@)));
                },
                None => {},
            }
        }
        i = i + 1;
    }
    assert(entries@.take(i as int) =~= entries@);
    found
}

/// The session-recovery files of several profiles directories, one after another.
pub open spec fn candidates_of(listings: Seq<Option<Vec<ProfileEntry>>>) -> Seq<Seq<char>>
    decreases listings.len(),
{
    if listings.len() == 0 {
        Seq::empty()
    } else {
        candidates_of(listings.drop_last()) + match listings.last() {
            Some(entries) => recovery_files_of(entries@),
            None => Seq::empty(),
        }
    }
}

/// All session-recovery files of the given profiles directories, in order.
pub fn session_recovery_candidates(listings: &[Option<Vec<ProfileEntry>>]) -> (r: Vec<String>)
    ensures
        texts(r@) == candidates_of(listings@),
{
    let mut all: Vec<String> = Vec::new();
    let mut i: usize = 0;
    while i < listings.len()
        invariant
            i <= listings@.len(),
            texts(all@) == candidates_of(listings@.take(i as int)),
        decreases listings@.len() - i,
    {
        assert(listings@.take(i + 1).drop_last() =~= listings@.take(i as int));
        assert(listings@.take(i + 1).last() == listings@[i as int]);
        let listing: Option<&[ProfileEntry]> = match &listings[i] {
            Some(entries) => Some(entries.as_slice()),
            None => None,
        };
        let mut found = recovery_files_in_base(listing);
        let ghost before = texts(all@);
        let ghost more = texts(found@);
        let mut k: usize = 0;
        while k < found.len()
            invariant
                k <= found@.len(),
                more == texts(found@),
                texts(all@) == before + more.take(k as int),
            decreases found@.len() - k,
        {
            let ghost prev = all@;
            all.push(found[k].clone());
            assert(all@ =~= prev.push(found@[k as int]));
            assert(texts(all@) =~= texts(prev).push(more[k as int]));
            assert(more.take(k + 1) =~= more.take(k as int).push(more[k as int]));
            assert(texts(all@) =~= before + more.take(k + 1));
            k = k + 1;
        }
        assert(more.take(k as int) =~= more);
        i = i + 1;
    }
    assert(listings@.take(i as int) =~= listings@);
    all
}

/// A session-recovery file and when it was last modified, in nanoseconds from the
/// Unix epoch (negative before it); `None` when the time could not be read.
pub struct RecoveryCandidate {
    pub path: String,
    pub modified: Option<i128>,
}

/// The order of modification times: an unknown time comes before every known one.
pub open spec fn time_le(a: Option<i128>, b: Option<i128>) -> bool {
    match (a, b) {
        (None, _) => true,
        (Some(_), None) => false,
        (Some(x), Some(y)) => x <= y,
    }
}

/// `i` is the position of the newest candidate, the last one when several are equally new.
pub open spec fn is_newest(c: Seq<RecoveryCandidate>, i: int) -> bool {
    &&& 0 <= i < c.len()
    &&& forall|j: int| 0 <= j < c.len() ==> time_le(#[trigger] c[j].modified, c[i].modified)
    &&& forall|j: int| i < j < c.len() ==> !time_le(c[i].modified, #[trigger] c[j].modified)
}

fn time_at_most(a: Option<i128>, b: Option<i128>) -> (r: bool)
    ensures
        r == time_le(a, b),
{
    match (a, b) {
        (None, _) => true,
        (Some(_), None) => false,
        (Some(x), Some(y)) => x <= y,
    }
}

/// The most recently modified file; the last of those equally recent.
pub fn newest_file(candidates: Vec<RecoveryCandidate>) -> (r: Option<String>)
    ensures
        candidates@.len() == 0 <==> r is None,
        r matches Some(p) ==> exists|i: int|
            is_newest(candidates@, i) && #[trigger] candidates@[i].path@ == p@,
{
    if candidates.len() == 0 {
        return None;
    }
    let mut best: usize = 0;
    let mut i: usize = 1;
    while i < candidates.len()
        invariant
            1 <= i <= candidates@.len(),
            best < i,
            forall|j: int| 0 <= j < i ==> time_le(#[trigger] candidates@[j].modified, candidates@[best as int].modified),
            forall|j: int| best < j < i ==> !time_le(candidates@[best as int].modified, #[trigger] candidates@[j].modified),
        decreases candidates@.len() - i,
    {
        if time_at_most(candidates[best].modified, candidates[i].modified) {
            best = i;
        }
        i = i + 1;
    }
    let path = candidates[best].path.clone();
    assert(is_newest(candidates@, best as int));
    assert(candidates@[best as int].path@ == path@);
    Some(path)
}

} // verus!
