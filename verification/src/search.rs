//! File search index: the files that a directory walk offers are filtered
//! into a bounded list of application and document files, which is then
//! searched by name prefix, by substring or by extension.

use vstd::prelude::*;
use crate::config::views;
use crate::text::{
    chars_of, contains_seq, ends_with, has_infix, has_prefix, has_suffix, lemma_text_lt_asymmetric, lemma_text_lt_transitive, lower,
    same_text, starts_with, string_from_range, strip_leading, strip_leading_char, text_less, text_lt, to_lower,
};

verus! {

/// The most entries an index holds; the walk stops once it is reached.
pub const MAX_ENTRIES: usize = 10000;

/// How deep below each root the walk goes.
pub const MAX_DEPTH: usize = 6;

/// A character that glob reads specially (`*`, `?`, `[`), or a path
/// separator, which glob compares as the platform does.
pub open spec fn glob_special(c: char) -> bool {
    c == '*' || c == '?' || c == '[' || c == '/' || c == '\\'
}

/// A pattern of plain characters: glob compiles it to one literal token per
/// character, and it matches a text exactly when the two are equal.
pub open spec fn literal_pattern(p: Seq<char>) -> bool {
    forall|k: int| 0 <= k < p.len() ==> !glob_special(#[trigger] p[k])
}

/// A pattern of one `*` followed by plain characters: glob compiles it to
/// a sequence wildcard, which with the default options also crosses path
/// separators, and literal tokens; it matches the texts that end with
/// those characters.
pub open spec fn star_suffix_pattern(p: Seq<char>) -> bool {
    p.len() > 0 && p[0] == '*' && literal_pattern(p.skip(1))
}

/// A pattern whose matches the glob source fixes on every platform.
pub open spec fn known_pattern(p: Seq<char>) -> bool {
    literal_pattern(p) || star_suffix_pattern(p)
}

/// Whether a known pattern matches `text`: a literal one the equal text, a
/// `*` one the texts ending with its characters.
pub open spec fn known_match(p: Seq<char>, text: Seq<char>) -> bool {
    if literal_pattern(p) {
        p == text
    } else {
        has_suffix(text, p.skip(1))
    }
}

/// Compiles `pattern` with `glob::Pattern::new` and, when it compiles,
/// matches `path` against it with `Pattern::matches` (`None` when the
/// pattern does not compile). Stated: a literal pattern compiles and
/// matches exactly the text equal to it, and `*` followed by literal
/// characters compiles and matches exactly the texts ending with them
/// (default options: case-sensitive, `*` crossing separators). Not stated:
/// the outcome of other patterns, which treat path separators as the
/// platform does.
#[verifier::external_body]
fn glob_matches(pattern: &str, path: &str) -> (r: Option<bool>)
    ensures
        literal_pattern(pattern@) ==> r == Some(pattern@ == path@),
        star_suffix_pattern(pattern@) ==> r == Some(has_suffix(path@, pattern@.skip(1))),
{
    match glob::Pattern::new(pattern) {
        Ok(p) => Some(p.matches(path)),
        Err(_) => None,
    }
}

/// A path separator: a backslash or a slash.
pub open spec fn is_path_sep(c: char) -> bool {
    c == '/' || c == '\\'
}

/// `path[i..j]` is one of the path's components: a run with no separator,
/// between separators or the ends of the path.
pub open spec fn component_at(path: Seq<char>, i: int, j: int) -> bool {
    &&& 0 <= i <= j <= path.len()
    &&& (i == 0 || is_path_sep(path[i - 1]))
    &&& (j == path.len() || is_path_sep(path[j]))
    &&& forall|k: int| i <= k < j ==> !is_path_sep(#[trigger] path[k])
}

/// `c` is one of the components of `path`.
pub open spec fn has_component(path: Seq<char>, c: Seq<char>) -> bool {
    exists|i: int, j: int| component_at(path, i, j) && path.subrange(i, j) == c
}

/// Some component of `path` is matched by the known pattern `p`.
pub open spec fn component_matches(p: Seq<char>, path: Seq<char>) -> bool {
    exists|i: int, j: int| component_at(path, i, j) && known_match(p, #[trigger] path.subrange(i, j))
}

/// A known pattern excludes a path it matches whole, or one of whose
/// components it matches (so that `node_modules` skips what lies under
/// such a directory).
pub open spec fn pattern_excludes(p: Seq<char>, path: Seq<char>) -> bool {
    known_match(p, path) || component_matches(p, path)
}

/// Some known pattern among `ex` excludes `path`.
pub open spec fn known_hit(ex: Seq<Seq<char>>, path: Seq<char>) -> bool {
    exists|i: int| 0 <= i < ex.len() && known_pattern(ex[i]) && pattern_excludes(#[trigger] ex[i], path)
}

/// Every pattern among `ex` is known.
pub open spec fn all_known(ex: Seq<Seq<char>>) -> bool {
    forall|i: int| 0 <= i < ex.len() ==> known_pattern(#[trigger] ex[i])
}

/// Some pattern among `ex` excludes `path`.
pub open spec fn pattern_hit(ex: Seq<Seq<char>>, path: Seq<char>) -> bool {
    exists|i: int| 0 <= i < ex.len() && pattern_excludes(#[trigger] ex[i], path)
}

/// The components of a path, in order.
pub fn path_components(path: &str) -> (r: Vec<String>)
    ensures
        forall|m: int| 0 <= m < r@.len() ==> has_component(path@, #[trigger] r@[m]@),
        forall|i: int, j: int|
            component_at(path@, i, j) ==> exists|m: int| 0 <= m < r@.len() && #[trigger] r@[m]@ == path@.subrange(i, j),
{
    let cs = chars_of(path);
    let ghost p = path@;
    let n = cs.len();
    let mut r: Vec<String> = Vec::new();
    let mut start: usize = 0;
    let mut k: usize = 0;
    while k < n
        invariant
            cs@ == p,
            n == p.len(),
            start <= k <= n,
            start == 0 || is_path_sep(p[start - 1]),
            forall|t: int| start <= t < k ==> !is_path_sep(#[trigger] p[t]),
            forall|m: int| 0 <= m < r@.len() ==> has_component(p, #[trigger] r@[m]@),
            forall|i: int, j: int|
                component_at(p, i, j) && j < k ==> exists|m: int| 0 <= m < r@.len() && #[trigger] r@[m]@ == p.subrange(i, j),
        decreases n - k,
    {
        let c = cs[k];
        if c == '/' || c == '\\' {
            let part = string_from_range(&cs, start, k);
            let ghost before = r@;
            r.push(part);
            proof {
                let last = r@.len() - 1;
                assert(component_at(p, start as int, k as int));
                assert(r@[last]@ == p.subrange(start as int, k as int));
                assert forall|m: int| 0 <= m < r@.len() implies has_component(p, #[trigger] r@[m]@) by {
                    if m < last {
                        assert(r@[m] == before[m]);
                    } else {
                        assert(component_at(p, start as int, k as int) && p.subrange(start as int, k as int) == r@[m]@);
                    }
                }
                assert forall|i: int, j: int| component_at(p, i, j) && j < k + 1 implies exists|m: int|
                    0 <= m < r@.len() && #[trigger] r@[m]@ == p.subrange(i, j) by {
                    if j < k {
                        let m0 = choose|m: int| 0 <= m < before.len() && #[trigger] before[m]@ == p.subrange(i, j);
                        assert(r@[m0] == before[m0]);
                    } else {
                        lemma_component_start(p, i, j, start as int);
                        assert(r@[last]@ == p.subrange(i, j));
                    }
                }
            }
            start = k + 1;
        } else {
            proof {
                assert(!is_path_sep(p[k as int]));
                assert forall|i: int, j: int| component_at(p, i, j) && j < k + 1 implies exists|m: int|
                    0 <= m < r@.len() && #[trigger] r@[m]@ == p.subrange(i, j) by {
                    assert(j != k);
                }
            }
        }
        k += 1;
    }
    let part = string_from_range(&cs, start, n);
    let ghost before = r@;
    r.push(part);
    proof {
        let last = r@.len() - 1;
        assert(component_at(p, start as int, n as int));
        assert forall|m: int| 0 <= m < r@.len() implies has_component(p, #[trigger] r@[m]@) by {
            if m < last {
                assert(r@[m] == before[m]);
            } else {
                assert(component_at(p, start as int, n as int) && p.subrange(start as int, n as int) == r@[m]@);
            }
        }
        assert forall|i: int, j: int| component_at(p, i, j) implies exists|m: int|
            0 <= m < r@.len() && #[trigger] r@[m]@ == p.subrange(i, j) by {
            if j < n {
                let m0 = choose|m: int| 0 <= m < before.len() && #[trigger] before[m]@ == p.subrange(i, j);
                assert(r@[m0] == before[m0]);
            } else {
                lemma_component_start(p, i, j, start as int);
                assert(r@[last]@ == p.subrange(i, j));
            }
        }
    }
    r
}

/// A component that ends where a separator-free run starting at `start`
/// ends begins at `start`.
proof fn lemma_component_start(p: Seq<char>, i: int, j: int, start: int)
    requires
        component_at(p, i, j),
        0 <= start <= j,
        start == 0 || is_path_sep(p[start - 1]),
        forall|t: int| start <= t < j ==> !is_path_sep(#[trigger] p[t]),
    ensures
        i == start,
{
    if i < start {
        assert(!is_path_sep(p[start - 1]));
    } else if i > start {
        assert(!is_path_sep(p[i - 1]));
    }
}

/// An entry that the directory walk offers.
pub struct WalkedFile {
    /// The full path
    pub path: String,
    /// The last component of the path
    pub file_name: String,
    /// The extension, when there is one that is valid text
    pub extension: Option<String>,
    /// Whether it is a regular file
    pub is_file: bool,
}

/// An indexed file: its lower-cased name, lower-cased path, path, and
/// lower-cased extension.
pub struct IndexEntry {
    name_lower: String,
    path_lower: String,
    path: String,
    ext_lower: String,
}

/// An indexed file as plain values.
pub struct EntryView {
    pub name: Seq<char>,
    pub path_lower: Seq<char>,
    pub path: Seq<char>,
    pub ext: Seq<char>,
}

impl View for IndexEntry {
    type V = EntryView;

    closed spec fn view(&self) -> EntryView {
        EntryView { name: self.name_lower@, path_lower: self.path_lower@, path: self.path@, ext: self.ext_lower@ }
    }
}

/// The entries of a vector, as plain values.
pub open spec fn entry_views(v: Seq<IndexEntry>) -> Seq<EntryView> {
    v.map_values(|e: IndexEntry| e@)
}

/// The extensions that are indexed (lower-case).
pub open spec fn allowed_ext(e: Seq<char>) -> bool {
    ||| e == "exe"@
    ||| e == "lnk"@
    ||| e == "bat"@
    ||| e == "cmd"@
    ||| e == "msi"@
    ||| e == "com"@
    ||| e == "ps1"@
    ||| e == "txt"@
    ||| e == "pdf"@
    ||| e == "json"@
    ||| e == "xml"@
    ||| e == "zip"@
}

/// A path (lower-cased) inside an application directory: Program Files
/// (either), a Start Menu, the per-user programs folder, the shared
/// "Common Files", a portable `app` or `application` folder, or an
/// executable under the roaming application data.
pub open spec fn is_app_path(path_lower: Seq<char>) -> bool {
    ||| has_infix(path_lower, "\\program files\\"@)
    ||| has_infix(path_lower, "\\program files (x86)\\"@)
    ||| has_infix(path_lower, "\\start menu\\"@)
    ||| has_infix(path_lower, "\\appdata\\local\\programs\\"@)
    ||| has_infix(path_lower, "\\common files\\"@)
    ||| has_infix(path_lower, "\\commonprogramfiles\\"@)
    ||| has_infix(path_lower, "\\app\\"@)
    ||| has_infix(path_lower, "\\application\\"@)
    ||| (has_infix(path_lower, "\\appdata\\roaming\\"@) && has_suffix(path_lower, ".exe"@))
}

/// The entry that a regular file with an indexed extension becomes.
pub open spec fn indexed(f: WalkedFile) -> Option<EntryView> {
    match f.extension {
        Some(e) => if allowed_ext(lower(e@)) {
            Some(EntryView { name: lower(f.file_name@), path_lower: lower(f.path@), path: f.path@, ext: lower(e@) })
        } else {
            None
        },
        None => None,
    }
}

/// The state of an index being built.
pub struct BuilderView {
    pub entries: Seq<EntryView>,
    pub scanned: u64,
    pub excludes: Seq<Seq<char>>,
}

/// Builds an index from the entries of a walk.
pub struct IndexBuilder {
    entries: Vec<IndexEntry>,
    scanned: u64,
    excludes: Vec<String>,
}

impl View for IndexBuilder {
    type V = BuilderView;

    closed spec fn view(&self) -> BuilderView {
        BuilderView { entries: entry_views(self.entries@), scanned: self.scanned, excludes: views(self.excludes@) }
    }
}

/// The builder after it is offered `f`, which an exclusion pattern matched
/// or not (`excluded`): nothing changes once it is full, or when `f` is
/// excluded or not a regular file; else `f` is counted as scanned and, when
/// indexed, added.
pub open spec fn offered(b: BuilderView, f: WalkedFile, excluded: bool) -> BuilderView {
    if b.entries.len() >= MAX_ENTRIES || excluded || !f.is_file {
        b
    } else {
        BuilderView {
            scanned: if b.scanned == u64::MAX {
                u64::MAX
            } else {
                (b.scanned + 1) as u64
            },
            entries: match indexed(f) {
                Some(e) => b.entries.push(e),
                None => b.entries,
            },
            ..b
        }
    }
}

fn allowed_ext_exec(e: &str) -> (b: bool)
    ensures
        b == allowed_ext(e@),
{
    same_text(e, "exe") || same_text(e, "lnk") || same_text(e, "bat") || same_text(e, "cmd") || same_text(
        e,
        "msi",
    ) || same_text(e, "com") || same_text(e, "ps1") || same_text(e, "txt") || same_text(e, "pdf") || same_text(
        e,
        "json",
    ) || same_text(e, "xml") || same_text(e, "zip")
}

/// Whether some outcome is a match (`Some(true)`); a pattern that did not
/// compile (`None`) matches nothing.
pub open spec fn some_match(outcomes: Seq<Option<bool>>) -> bool {
    exists|i: int| 0 <= i < outcomes.len() && outcomes[i] == Some(true)
}

/// Whether any of the outcomes of matching a path against the exclusion
/// patterns is a match.
pub fn any_match(outcomes: &Vec<Option<bool>>) -> (b: bool)
    ensures
        b == some_match(outcomes@),
{
    let mut i: usize = 0;
    while i < outcomes.len()
        invariant
            i <= outcomes@.len(),
            forall|j: int| 0 <= j < i ==> outcomes@[j] != Some(true),
        decreases outcomes.len() - i,
    {
        if let Some(true) = outcomes[i] {
            return true;
        }
        i += 1;
    }
    false
}

/// The builder after it is offered the files of a walk in order, each with
/// whether the exclusion patterns matched it.
pub open spec fn offered_all(b: BuilderView, files: Seq<WalkedFile>, excluded: Seq<bool>) -> BuilderView
    decreases files.len(),
{
    if files.len() == 0 {
        b
    } else {
        offered(offered_all(b, files.drop_last(), excluded), files.last(), excluded[files.len() - 1])
    }
}

/// The entries that the files of a walk give, in order, with no cap: those
/// of regular files that no pattern matched and whose extension is indexed.
pub open spec fn kept(files: Seq<WalkedFile>, excluded: Seq<bool>) -> Seq<EntryView>
    decreases files.len(),
{
    if files.len() == 0 {
        Seq::empty()
    } else {
        let f = files.last();
        let rest = kept(files.drop_last(), excluded);
        if !excluded[files.len() - 1] && f.is_file && indexed(f) is Some {
            rest.push(indexed(f)->0)
        } else {
            rest
        }
    }
}

/// A whole walk offered to an empty builder keeps, in walk order, the
/// entries of the regular files that no pattern matched and whose extension
/// is indexed, up to `MAX_ENTRIES` of them: all of them when there are
/// fewer, else the first `MAX_ENTRIES`; it never holds more entries than
/// files it scanned.
pub proof fn lemma_walk_index(b: BuilderView, files: Seq<WalkedFile>, excluded: Seq<bool>)
    requires
        b.entries.len() == 0,
        excluded.len() == files.len(),
    ensures
        offered_all(b, files, excluded).entries == kept(files, excluded).take(
            if kept(files, excluded).len() < MAX_ENTRIES {
                kept(files, excluded).len() as int
            } else {
                MAX_ENTRIES as int
            },
        ),
        offered_all(b, files, excluded).entries.len() <= MAX_ENTRIES,
        offered_all(b, files, excluded).entries.len() <= offered_all(b, files, excluded).scanned,
        offered_all(b, files, excluded).excludes == b.excludes,
    decreases files.len(),
{
    if files.len() == 0 {
        assert(kept(files, excluded).take(0) =~= Seq::<EntryView>::empty());
    } else {
        let fs = files.drop_last();
        let ex = excluded.subrange(0, fs.len() as int);
        lemma_kept_prefix(files, excluded);
        lemma_offered_all_prefix(b, files, excluded);
        lemma_walk_index(b, fs, ex);
        let k = kept(fs, ex);
        let k2 = kept(files, excluded);
        if k.len() >= MAX_ENTRIES {
            assert(k2.take(MAX_ENTRIES as int) =~= k.take(MAX_ENTRIES as int));
        } else {
            assert(k.take(k.len() as int) =~= k);
            assert(k2.take(k2.len() as int) =~= k2);
        }
    }
}

/// A walk offered with each file's exclusion decided by the patterns
/// indexes no path that a pattern excludes: with the patterns
/// `["node_modules", ".git"]`, no indexed path has such a component.
pub proof fn lemma_walk_skips_excluded(
    b: BuilderView,
    files: Seq<WalkedFile>,
    excluded: Seq<bool>,
    ex: Seq<Seq<char>>,
)
    requires
        b.entries.len() == 0,
        excluded.len() == files.len(),
        forall|i: int| 0 <= i < files.len() ==> #[trigger] excluded[i] == pattern_hit(ex, files[i].path@),
    ensures
        forall|k: int|
            0 <= k < offered_all(b, files, excluded).entries.len() ==> !pattern_hit(
                ex,
                #[trigger] offered_all(b, files, excluded).entries[k].path,
            ),
{
    lemma_walk_index(b, files, excluded);
    lemma_kept_not_excluded(files, excluded, ex);
    let k = kept(files, excluded);
    assert forall|q: int| 0 <= q < offered_all(b, files, excluded).entries.len() implies !pattern_hit(
        ex,
        #[trigger] offered_all(b, files, excluded).entries[q].path,
    ) by {
        assert(offered_all(b, files, excluded).entries[q] == k[q]);
    }
}

proof fn lemma_kept_not_excluded(files: Seq<WalkedFile>, excluded: Seq<bool>, ex: Seq<Seq<char>>)
    requires
        files.len() <= excluded.len(),
        forall|i: int| 0 <= i < files.len() ==> #[trigger] excluded[i] == pattern_hit(ex, files[i].path@),
    ensures
        forall|k: int| 0 <= k < kept(files, excluded).len() ==> !pattern_hit(ex, #[trigger] kept(files, excluded)[k].path),
    decreases files.len(),
{
    if files.len() > 0 {
        let fs = files.drop_last();
        assert forall|i: int| 0 <= i < fs.len() implies #[trigger] excluded[i] == pattern_hit(ex, fs[i].path@) by {
            assert(fs[i] == files[i]);
        }
        lemma_kept_not_excluded(fs, excluded, ex);
        let f = files.last();
        assert(excluded[files.len() - 1] == pattern_hit(ex, f.path@));
        let rest = kept(fs, excluded);
        let all = kept(files, excluded);
        if !excluded[files.len() - 1] && f.is_file && indexed(f) is Some {
            assert(indexed(f)->0.path == f.path@);
            assert(all == rest.push(indexed(f)->0));
            assert forall|k: int| 0 <= k < all.len() implies !pattern_hit(ex, #[trigger] all[k].path) by {
                if k < rest.len() {
                    assert(all[k] == rest[k]);
                }
            }
        } else {
            assert(all == rest);
        }
    }
}

/// `kept` reads only the outcomes of the files it is given.
proof fn lemma_kept_prefix(files: Seq<WalkedFile>, excluded: Seq<bool>)
    requires
        files.len() > 0,
        excluded.len() == files.len(),
    ensures
        kept(files.drop_last(), excluded) == kept(files.drop_last(), excluded.subrange(0, files.len() - 1)),
{
    lemma_kept_same(files.drop_last(), excluded, excluded.subrange(0, files.len() - 1));
}

proof fn lemma_kept_same(files: Seq<WalkedFile>, e1: Seq<bool>, e2: Seq<bool>)
    requires
        files.len() <= e1.len(),
        files.len() <= e2.len(),
        forall|i: int| 0 <= i < files.len() ==> e1[i] == e2[i],
    ensures
        kept(files, e1) == kept(files, e2),
    decreases files.len(),
{
    if files.len() > 0 {
        lemma_kept_same(files.drop_last(), e1, e2);
    }
}

proof fn lemma_offered_same(b: BuilderView, files: Seq<WalkedFile>, e1: Seq<bool>, e2: Seq<bool>)
    requires
        files.len() <= e1.len(),
        files.len() <= e2.len(),
        forall|i: int| 0 <= i < files.len() ==> e1[i] == e2[i],
    ensures
        offered_all(b, files, e1) == offered_all(b, files, e2),
    decreases files.len(),
{
    if files.len() > 0 {
        lemma_offered_same(b, files.drop_last(), e1, e2);
    }
}

/// `offered_all` reads only the outcomes of the files it is given.
proof fn lemma_offered_all_prefix(b: BuilderView, files: Seq<WalkedFile>, excluded: Seq<bool>)
    requires
        files.len() > 0,
        excluded.len() == files.len(),
    ensures
        offered_all(b, files.drop_last(), excluded) == offered_all(
            b,
            files.drop_last(),
            excluded.subrange(0, files.len() - 1),
        ),
{
    lemma_offered_same(b, files.drop_last(), excluded, excluded.subrange(0, files.len() - 1));
}

/// The outcome of one exclusion pattern on `path` and its components:
/// `None` when it does not compile, else whether it matches the path or
/// one of the components.
fn pattern_outcome(pattern: &str, path: &str, comps: &Vec<String>) -> (r: Option<bool>)
    requires
        forall|m: int| 0 <= m < comps@.len() ==> has_component(path@, #[trigger] comps@[m]@),
        forall|i: int, j: int|
            component_at(path@, i, j) ==> exists|m: int| 0 <= m < comps@.len() && #[trigger] comps@[m]@ == path@.subrange(i, j),
    ensures
        known_pattern(pattern@) ==> r == Some(pattern_excludes(pattern@, path@)),
{
    let whole = glob_matches(pattern, path);
    match whole {
        None => None,
        Some(true) => Some(true),
        Some(false) => {
            let mut m: usize = 0;
            while m < comps.len()
                invariant
                    m <= comps@.len(),
                    known_pattern(pattern@) ==> !known_match(pattern@, path@),
                    forall|k: int| 0 <= k < comps@.len() ==> has_component(path@, #[trigger] comps@[k]@),
                    forall|k: int|
                        0 <= k < m && known_pattern(pattern@) ==> !known_match(pattern@, #[trigger] comps@[k]@),
                decreases comps.len() - m,
            {
                match glob_matches(pattern, comps[m].as_str()) {
                    Some(true) => {
                        proof {
                            if known_pattern(pattern@) {
                                let c = comps@[m as int]@;
                                assert(known_match(pattern@, c));
                                assert(has_component(path@, c));
                                let (i, j) = choose|i: int, j: int| component_at(path@, i, j) && path@.subrange(i, j) == c;
                                assert(known_match(pattern@, path@.subrange(i, j)));
                            }
                        }
                        return Some(true);
                    },
                    _ => {},
                }
                m += 1;
            }
            proof {
                if known_pattern(pattern@) && component_matches(pattern@, path@) {
                    let (i, j) = choose|i: int, j: int|
                        component_at(path@, i, j) && known_match(pattern@, #[trigger] path@.subrange(i, j));
                    let k = choose|k: int| 0 <= k < comps@.len() && #[trigger] comps@[k]@ == path@.subrange(i, j);
                    assert(known_match(pattern@, comps@[k]@));
                }
            }
            Some(false)
        },
    }
}

impl IndexBuilder {
    /// A builder that skips the paths that any of `exclude_patterns`
    /// matches, whole or in one of their components (patterns that do not
    /// compile are ignored).
    pub fn new(exclude_patterns: &Vec<String>) -> (b: IndexBuilder)
        ensures
            b@.entries.len() == 0,
            b@.scanned == 0,
            b@.excludes == views(exclude_patterns@),
    {
        let mut excludes: Vec<String> = Vec::new();
        let mut i: usize = 0;
        while i < exclude_patterns.len()
            invariant
                i <= exclude_patterns@.len(),
                views(excludes@) == views(exclude_patterns@).take(i as int),
            decreases exclude_patterns.len() - i,
        {
            excludes.push(exclude_patterns[i].clone());
            assert(views(exclude_patterns@).take(i + 1) == views(exclude_patterns@).take(i as int).push(
                exclude_patterns@[i as int]@,
            ));
            i += 1;
        }
        assert(views(exclude_patterns@).take(exclude_patterns@.len() as int) == views(exclude_patterns@));
        IndexBuilder { entries: Vec::new(), scanned: 0, excludes }
    }

    /// The outcome of each exclusion pattern, in order, on `path` and its
    /// components `comps`: `None` when the pattern does not compile, else
    /// whether it matches the whole path or one of the components.
    fn exclusion_outcomes(&self, path: &str, comps: &Vec<String>) -> (r: Vec<Option<bool>>)
        requires
            forall|m: int| 0 <= m < comps@.len() ==> has_component(path@, #[trigger] comps@[m]@),
            forall|i: int, j: int|
                component_at(path@, i, j) ==> exists|m: int| 0 <= m < comps@.len() && #[trigger] comps@[m]@ == path@.subrange(i, j),
        ensures
            r@.len() == self@.excludes.len(),
            forall|i: int|
                0 <= i < r@.len() && known_pattern(self@.excludes[i]) ==> #[trigger] r@[i] == Some(
                    pattern_excludes(self@.excludes[i], path@),
                ),
    {
        let mut r: Vec<Option<bool>> = Vec::new();
        let mut i: usize = 0;
        while i < self.excludes.len()
            invariant
                i <= self.excludes@.len(),
                r@.len() == i,
                forall|m: int| 0 <= m < comps@.len() ==> has_component(path@, #[trigger] comps@[m]@),
                forall|a: int, b: int|
                    component_at(path@, a, b) ==> exists|m: int| 0 <= m < comps@.len() && #[trigger] comps@[m]@ == path@.subrange(a, b),
                forall|k: int|
                    0 <= k < r@.len() && known_pattern(self@.excludes[k]) ==> #[trigger] r@[k] == Some(
                        pattern_excludes(self@.excludes[k], path@),
                    ),
            decreases self.excludes.len() - i,
        {
            let o = pattern_outcome(self.excludes[i].as_str(), path, comps);
            r.push(o);
            i += 1;
        }
        r
    }

    /// Whether some exclusion pattern compiles and matches `path` or one of
    /// its components: `any_match` of the pattern outcomes. A known pattern
    /// excludes exactly the paths that it, or one of their components,
    /// matches (a literal pattern such as `node_modules` the path equal to
    /// it and the paths with such a component).
    pub fn is_excluded(&self, path: &str) -> (b: bool)
        ensures
            b ==> self@.excludes.len() > 0,
            known_hit(self@.excludes, path@) ==> b,
            all_known(self@.excludes) ==> (b == pattern_hit(self@.excludes, path@)),
    {
        let comps = path_components(path);
        let outcomes = self.exclusion_outcomes(path, &comps);
        let b = any_match(&outcomes);
        proof {
            let ex = self@.excludes;
            if known_hit(ex, path@) {
                let i = choose|i: int| 0 <= i < ex.len() && known_pattern(ex[i]) && pattern_excludes(#[trigger] ex[i], path@);
                assert(outcomes@[i] == Some(true));
            }
            if all_known(ex) {
                if b {
                    let i = choose|i: int| 0 <= i < outcomes@.len() && outcomes@[i] == Some(true);
                    assert(known_pattern(ex[i]));
                    assert(pattern_excludes(ex[i], path@));
                }
                if pattern_hit(ex, path@) {
                    let i = choose|i: int| 0 <= i < ex.len() && pattern_excludes(#[trigger] ex[i], path@);
                    assert(known_pattern(ex[i]));
                    assert(outcomes@[i] == Some(true));
                }
            }
        }
        b
    }

    /// Offer an entry of the walk, which the exclusion patterns matched or
    /// not (`excluded`); returns whether the index is full (and the walk
    /// should stop).
    pub fn offer_checked(&mut self, f: WalkedFile, excluded: bool) -> (full: bool)
        ensures
            final(self)@ == offered(old(self)@, f, excluded),
            full == (final(self)@.entries.len() >= MAX_ENTRIES),
    {
        if self.entries.len() >= MAX_ENTRIES {
            return true;
        }
        if excluded || !f.is_file {
            return false;
        }
        self.scanned = self.scanned.saturating_add(1);
        match f.extension {
            Some(ext) => {
                let e = to_lower(ext.as_str());
                if allowed_ext_exec(e.as_str()) {
                    let entry = IndexEntry {
                        name_lower: to_lower(f.file_name.as_str()),
                        path_lower: to_lower(f.path.as_str()),
                        path: f.path,
                        ext_lower: e,
                    };
                    self.entries.push(entry);
                    assert(entry_views(self.entries@) == entry_views(old(self).entries@).push(entry@));
                }
            },
            None => {},
        }
        self.entries.len() >= MAX_ENTRIES
    }

    /// Offer an entry of the walk, checking it against the exclusion
    /// patterns; returns whether the index is full (and the walk should stop).
    pub fn offer(&mut self, f: WalkedFile) -> (full: bool)
        ensures
            final(self)@ == offered(old(self)@, f, true) || final(self)@ == offered(old(self)@, f, false),
            old(self)@.excludes.len() == 0 ==> final(self)@ == offered(old(self)@, f, false),
            known_hit(old(self)@.excludes, f.path@) ==> final(self)@ == offered(old(self)@, f, true),
            all_known(old(self)@.excludes) ==> final(self)@ == offered(
                old(self)@,
                f,
                pattern_hit(old(self)@.excludes, f.path@),
            ),
            full == (final(self)@.entries.len() >= MAX_ENTRIES),
    {
        let excluded = self.is_excluded(f.path.as_str());
        self.offer_checked(f, excluded)
    }

    /// How many regular files have been scanned.
    pub fn scanned(&self) -> (n: u64)
        ensures
            n == self@.scanned,
    {
        self.scanned
    }

    /// The index built so far.
    pub fn finish(self) -> (idx: SearchIndex)
        ensures
            idx@ == self@.entries,
    {
        SearchIndex { entries: self.entries }
    }
}

/// A simple in-memory search index built from filenames -> full paths.
pub struct SearchIndex {
    entries: Vec<IndexEntry>,
}

impl View for SearchIndex {
    type V = Seq<EntryView>;

    closed spec fn view(&self) -> Seq<EntryView> {
        entry_views(self.entries@)
    }
}

/// An entry matches a query: by name prefix (`prefix_mode`), else by the
/// query occurring in its name or its path.
pub open spec fn query_hit(e: EntryView, q: Seq<char>, prefix_mode: bool) -> bool {
    if prefix_mode {
        has_prefix(e.name, q)
    } else {
        has_infix(e.name, q) || has_infix(e.path_lower, q)
    }
}

/// The matching entries among the first `n`, in order, each with its rank.
pub open spec fn hits(es: Seq<EntryView>, q: Seq<char>, prefix_mode: bool, rank: Seq<u32>, n: int) -> Seq<
    (u32, int),
>
    decreases n,
{
    if n <= 0 {
        Seq::empty()
    } else {
        let r = hits(es, q, prefix_mode, rank, n - 1);
        if query_hit(es[n - 1], q, prefix_mode) {
            r.push((rank[n - 1], n - 1))
        } else {
            r
        }
    }
}

/// `x` comes before `y` in a result list: it ranks higher, or it ranks
/// the same and its path sorts first.
pub open spec fn precedes(es: Seq<EntryView>, x: (u32, int), y: (u32, int)) -> bool {
    x.0 > y.0 || (x.0 == y.0 && text_lt(es[x.1].path, es[y.1].path))
}

/// The first position from `i` on whose candidate `x` precedes
/// (`s.len()` if none).
pub open spec fn first_after(es: Seq<EntryView>, s: Seq<(u32, int)>, x: (u32, int), i: int) -> int
    decreases s.len() - i,
{
    if i >= s.len() || i < 0 {
        s.len() as int
    } else if precedes(es, x, s[i]) {
        i
    } else {
        first_after(es, s, x, i + 1)
    }
}

/// `s` sorted by rank, highest first, and equal ranks by path.
pub open spec fn by_rank(es: Seq<EntryView>, s: Seq<(u32, int)>) -> Seq<(u32, int)>
    decreases s.len(),
{
    if s.len() == 0 {
        Seq::empty()
    } else {
        let r = by_rank(es, s.drop_last());
        r.insert(first_after(es, r, s.last(), 0), s.last())
    }
}

/// The paths of the entries that candidates name.
pub open spec fn paths_of(es: Seq<EntryView>, cs: Seq<(u32, int)>) -> Seq<Seq<char>> {
    cs.map_values(|c: (u32, int)| es[c.1].path)
}

/// The first `n` of `s` (all of it when it is shorter).
pub open spec fn first_n<A>(s: Seq<A>, n: nat) -> Seq<A> {
    if n < s.len() {
        s.take(n as int)
    } else {
        s
    }
}

/// The result of a ranked search: all matching entries sorted (see
/// `by_rank`), the first `limit` of them, as paths.
pub open spec fn ranked(es: Seq<EntryView>, q: Seq<char>, prefix_mode: bool, rank: Seq<u32>, limit: nat) -> Seq<
    Seq<char>,
> {
    paths_of(es, first_n(by_rank(es, hits(es, q, prefix_mode, rank, es.len() as int)), limit))
}

/// The paths of the entries with extension `e` among the first `n`, in order.
pub open spec fn ext_hits(es: Seq<EntryView>, e: Seq<char>, n: int) -> Seq<Seq<char>>
    decreases n,
{
    if n <= 0 {
        Seq::empty()
    } else if es[n - 1].ext == e {
        ext_hits(es, e, n - 1).push(es[n - 1].path)
    } else {
        ext_hits(es, e, n - 1)
    }
}

proof fn lemma_ext_hits_grow(es: Seq<EntryView>, e: Seq<char>, n: int, m: int)
    requires
        0 <= n <= m <= es.len(),
    ensures
        ext_hits(es, e, n).len() <= ext_hits(es, e, m).len(),
        ext_hits(es, e, m).take(ext_hits(es, e, n).len() as int) == ext_hits(es, e, n),
    decreases m - n,
{
    if n < m {
        lemma_ext_hits_grow(es, e, n, m - 1);
        let a = ext_hits(es, e, n);
        let b = ext_hits(es, e, m - 1);
        if es[m - 1].ext == e {
            assert(b.push(es[m - 1].path).take(a.len() as int) == b.take(a.len() as int));
        }
    }
}

proof fn lemma_first_after(es: Seq<EntryView>, r: Seq<(u32, int)>, x: (u32, int), i: int)
    requires
        0 <= i <= r.len(),
    ensures
        i <= first_after(es, r, x, i) <= r.len(),
        forall|j: int| i <= j < first_after(es, r, x, i) ==> !precedes(es, x, #[trigger] r[j]),
        first_after(es, r, x, i) < r.len() ==> precedes(es, x, r[first_after(es, r, x, i)]),
    decreases r.len() - i,
{
    if i < r.len() && !precedes(es, x, r[i]) {
        lemma_first_after(es, r, x, i + 1);
    }
}

proof fn lemma_precedes_transitive(es: Seq<EntryView>, x: (u32, int), y: (u32, int), z: (u32, int))
    requires
        precedes(es, x, y),
        precedes(es, y, z),
    ensures
        precedes(es, x, z),
{
    if x.0 == y.0 && y.0 == z.0 {
        lemma_text_lt_transitive(es[x.1].path, es[y.1].path, es[z.1].path);
    }
}

proof fn lemma_precedes_asymmetric(es: Seq<EntryView>, x: (u32, int), y: (u32, int))
    requires
        precedes(es, x, y),
    ensures
        !precedes(es, y, x),
{
    if x.0 == y.0 {
        lemma_text_lt_asymmetric(es[x.1].path, es[y.1].path);
    }
}

/// Ranks run from highest to lowest.
pub open spec fn rank_descending(s: Seq<(u32, int)>) -> bool {
    forall|i: int, j: int| 0 <= i < j < s.len() ==> s[i].0 >= s[j].0
}

/// Among equal ranks, paths run in sorted order.
pub open spec fn ties_by_path(es: Seq<EntryView>, s: Seq<(u32, int)>) -> bool {
    forall|i: int, j: int|
        0 <= i < j < s.len() && s[i].0 == s[j].0 ==> !text_lt(es[s[j].1].path, es[s[i].1].path)
}

/// No candidate precedes one placed before it.
pub open spec fn in_result_order(es: Seq<EntryView>, s: Seq<(u32, int)>) -> bool {
    forall|i: int, j: int| 0 <= i < j < s.len() ==> !precedes(es, #[trigger] s[j], #[trigger] s[i])
}

proof fn lemma_by_rank(es: Seq<EntryView>, s: Seq<(u32, int)>)
    ensures
        by_rank(es, s).len() == s.len(),
        in_result_order(es, by_rank(es, s)),
        forall|j: int| 0 <= j < by_rank(es, s).len() ==> s.contains(#[trigger] by_rank(es, s)[j]),
    decreases s.len(),
{
    if s.len() > 0 {
        let r = by_rank(es, s.drop_last());
        lemma_by_rank(es, s.drop_last());
        let x = s.last();
        let p = first_after(es, r, x, 0);
        lemma_first_after(es, r, x, 0);
        let t = r.insert(p, x);
        assert forall|i: int, j: int| 0 <= i < j < t.len() implies !precedes(es, #[trigger] t[j], #[trigger] t[i]) by {
            if j < p {
            } else if j == p {
                assert(t[i] == r[i]);
            } else if i < p {
                assert(t[i] == r[i]);
                assert(t[j] == r[j - 1]);
            } else if i == p {
                assert(t[j] == r[j - 1]);
                if j - 1 == p {
                    lemma_precedes_asymmetric(es, x, r[p]);
                } else if precedes(es, r[j - 1], x) {
                    lemma_precedes_transitive(es, r[j - 1], x, r[p]);
                    assert(!precedes(es, r[j - 1], r[p]));
                }
            } else {
                assert(t[i] == r[i - 1]);
                assert(t[j] == r[j - 1]);
            }
        }
        assert forall|j: int| 0 <= j < t.len() implies s.contains(#[trigger] t[j]) by {
            if j == p {
                assert(s[s.len() - 1] == x);
            } else if j < p {
                assert(s.drop_last().contains(r[j]));
                let w = choose|w: int| 0 <= w < s.drop_last().len() && s.drop_last()[w] == r[j];
                assert(s[w] == r[j]);
            } else {
                assert(s.drop_last().contains(r[j - 1]));
                let w = choose|w: int| 0 <= w < s.drop_last().len() && s.drop_last()[w] == r[j - 1];
                assert(s[w] == r[j - 1]);
            }
        }
    }
}

proof fn lemma_hits(es: Seq<EntryView>, q: Seq<char>, prefix_mode: bool, rank: Seq<u32>, n: int)
    requires
        0 <= n <= es.len(),
        rank.len() == es.len(),
    ensures
        forall|j: int|
            0 <= j < hits(es, q, prefix_mode, rank, n).len() ==> 0 <= (#[trigger] hits(
                es,
                q,
                prefix_mode,
                rank,
                n,
            )[j]).1 < n && query_hit(es[hits(es, q, prefix_mode, rank, n)[j].1], q, prefix_mode)
                && hits(es, q, prefix_mode, rank, n)[j].0 == rank[hits(es, q, prefix_mode, rank, n)[j].1],
    decreases n,
{
    if n > 0 {
        lemma_hits(es, q, prefix_mode, rank, n - 1);
        let r = hits(es, q, prefix_mode, rank, n - 1);
        let t = hits(es, q, prefix_mode, rank, n);
        assert forall|j: int| 0 <= j < t.len() implies 0 <= (#[trigger] t[j]).1 < n && query_hit(
            es[t[j].1],
            q,
            prefix_mode,
        ) && t[j].0 == rank[t[j].1] by {
            if j < r.len() {
                assert(t[j] == r[j]);
            }
        }
    }
}

proof fn lemma_by_rank_multiset(es: Seq<EntryView>, s: Seq<(u32, int)>)
    ensures
        by_rank(es, s).to_multiset() == s.to_multiset(),
        by_rank(es, s).len() == s.len(),
    decreases s.len(),
{
    broadcast use vstd::seq_lib::to_multiset_insert, vstd::seq_lib::to_multiset_build;

    if s.len() > 0 {
        let d = s.drop_last();
        let x = s.last();
        lemma_by_rank_multiset(es, d);
        let r = by_rank(es, d);
        lemma_first_after(es, r, x, 0);
        let p = first_after(es, r, x, 0);
        assert(d.push(x) == s);
        assert(by_rank(es, s) == r.insert(p, x));
        assert(r.insert(p, x).to_multiset() == r.to_multiset().insert(x));
        assert(d.push(x).to_multiset() == d.to_multiset().insert(x));
    } else {
        assert(s =~= Seq::<(u32, int)>::empty());
    }
}

proof fn lemma_first_after_take(es: Seq<EntryView>, r: Seq<(u32, int)>, x: (u32, int), l: int, i: int)
    requires
        0 <= l <= r.len(),
        0 <= i <= l,
    ensures
        first_after(es, r.take(l), x, i) == (if first_after(es, r, x, i) < l {
            first_after(es, r, x, i)
        } else {
            l
        }),
    decreases l - i,
{
    if i < l {
        assert(r.take(l)[i] == r[i]);
        if !precedes(es, x, r[i]) {
            lemma_first_after_take(es, r, x, l, i + 1);
        }
    } else {
        lemma_first_after(es, r, x, i);
    }
}

/// Keeping the first `l` of the sorted candidates as they arrive: the
/// first `l` after one more arrives are the first `l` kept before with the
/// newcomer put in its place, cut to `l` again.
proof fn lemma_bounded_insert(es: Seq<EntryView>, cs: Seq<(u32, int)>, i: int, l: nat)
    requires
        0 <= i < cs.len(),
    ensures
        ({
            let b = first_n(by_rank(es, cs.take(i)), l);
            first_n(by_rank(es, cs.take(i + 1)), l) == first_n(b.insert(first_after(es, b, cs[i], 0), cs[i]), l)
        }),
{
    let x = cs[i];
    let r = by_rank(es, cs.take(i));
    assert(cs.take(i + 1).drop_last() == cs.take(i));
    assert(cs.take(i + 1).last() == x);
    lemma_by_rank_multiset(es, cs.take(i));
    lemma_first_after(es, r, x, 0);
    let p = first_after(es, r, x, 0);
    let full = r.insert(p, x);
    assert(by_rank(es, cs.take(i + 1)) == full);
    let b = first_n(r, l);
    if l < r.len() {
        lemma_first_after_take(es, r, x, l as int, 0);
        let q = first_after(es, b, x, 0);
        if p < l {
            assert(q == p);
            assert(first_n(full, l) =~= first_n(b.insert(q, x), l));
        } else {
            assert(q == l);
            assert(first_n(full, l) =~= first_n(b.insert(q, x), l));
        }
    } else {
        assert(b == r);
    }
}

/// Every entry that matches among the first `n` is among the hits, and
/// there are at most `n` of them.
proof fn lemma_hits_complete(es: Seq<EntryView>, q: Seq<char>, prefix_mode: bool, rank: Seq<u32>, n: int, i: int)
    requires
        0 <= i < n <= es.len(),
        rank.len() == es.len(),
        query_hit(es[i], q, prefix_mode),
    ensures
        hits(es, q, prefix_mode, rank, n).contains((rank[i], i)),
    decreases n,
{
    let h = hits(es, q, prefix_mode, rank, n);
    if i < n - 1 {
        lemma_hits_complete(es, q, prefix_mode, rank, n - 1, i);
        let r = hits(es, q, prefix_mode, rank, n - 1);
        let k = choose|k: int| 0 <= k < r.len() && r[k] == (rank[i], i);
        if query_hit(es[n - 1], q, prefix_mode) {
            assert(h[k] == r[k]);
        } else {
            assert(h[k] == r[k]);
        }
    } else {
        let r = hits(es, q, prefix_mode, rank, n - 1);
        assert(h[r.len() as int] == (rank[i], i));
    }
}

proof fn lemma_hits_len(es: Seq<EntryView>, q: Seq<char>, prefix_mode: bool, rank: Seq<u32>, n: int)
    requires
        0 <= n,
    ensures
        hits(es, q, prefix_mode, rank, n).len() <= n,
    decreases n,
{
    if n > 0 {
        lemma_hits_len(es, q, prefix_mode, rank, n - 1);
    }
}

/// When the limit leaves room for every entry, an entry that a search
/// matches is in the result.
proof fn lemma_ranked_complete(es: Seq<EntryView>, q: Seq<char>, prefix_mode: bool, rank: Seq<u32>, limit: nat, i: int)
    requires
        rank.len() == es.len(),
        es.len() <= limit,
        0 <= i < es.len(),
        query_hit(es[i], q, prefix_mode),
    ensures
        ranked(es, q, prefix_mode, rank, limit).contains(es[i].path),
{
    broadcast use vstd::seq_lib::group_to_multiset_ensures;

    let hs = hits(es, q, prefix_mode, rank, es.len() as int);
    lemma_hits_complete(es, q, prefix_mode, rank, es.len() as int, i);
    lemma_hits_len(es, q, prefix_mode, rank, es.len() as int);
    lemma_by_rank_multiset(es, hs);
    let all = by_rank(es, hs);
    let x = (rank[i], i);
    assert(hs.to_multiset().count(x) > 0);
    assert(all.to_multiset().count(x) > 0);
    assert(all.contains(x));
    let j = choose|j: int| 0 <= j < all.len() && all[j] == x;
    assert(first_n(all, limit) == all);
    let out = ranked(es, q, prefix_mode, rank, limit);
    assert(out[j] == es[i].path);
}

/// A search for text anywhere in a name or a path finds every entry whose
/// lower-cased name or lower-cased path contains the query, when the limit
/// leaves room for every entry.
pub proof fn lemma_query_finds_name_or_path(es: Seq<EntryView>, q: Seq<char>, rank: Seq<u32>, limit: nat, i: int)
    requires
        rank.len() == es.len(),
        es.len() <= limit,
        0 <= i < es.len(),
        has_infix(es[i].name, q) || has_infix(es[i].path_lower, q),
    ensures
        ranked(es, q, false, rank, limit).contains(es[i].path),
{
    lemma_ranked_complete(es, q, false, rank, limit, i);
}

/// A search by name prefix finds every entry whose lower-cased name starts
/// with the query, when the limit leaves room for every entry.
pub proof fn lemma_prefix_finds_name(es: Seq<EntryView>, q: Seq<char>, rank: Seq<u32>, limit: nat, i: int)
    requires
        rank.len() == es.len(),
        es.len() <= limit,
        0 <= i < es.len(),
        has_prefix(es[i].name, q),
    ensures
        ranked(es, q, true, rank, limit).contains(es[i].path),
{
    lemma_ranked_complete(es, q, true, rank, limit, i);
}

/// A ranked search gives `limit` results, or all the matches when fewer:
/// each is the path of a matching entry, in order of its rank, highest
/// first, and equal ranks in the sorted order of their paths; and no
/// match left out comes before one that is given.
pub proof fn lemma_ranked_search(es: Seq<EntryView>, q: Seq<char>, prefix_mode: bool, rank: Seq<u32>, limit: nat)
    requires
        rank.len() == es.len(),
    ensures
        ({
            let hs = hits(es, q, prefix_mode, rank, es.len() as int);
            let s = first_n(by_rank(es, hs), limit);
            &&& ranked(es, q, prefix_mode, rank, limit) == paths_of(es, s)
            &&& s.len() == (if hs.len() < limit {
                hs.len()
            } else {
                limit
            })
            &&& rank_descending(s)
            &&& ties_by_path(es, s)
            &&& forall|j: int|
                0 <= j < s.len() ==> 0 <= #[trigger] s[j].1 < es.len() && query_hit(es[s[j].1], q, prefix_mode) && s[j].0
                    == rank[s[j].1]
            &&& forall|h: int|
                0 <= h < hs.len() ==> s.contains(#[trigger] hs[h]) || forall|j: int|
                    0 <= j < s.len() ==> !precedes(es, hs[h], #[trigger] s[j])
        }),
{
    let hs = hits(es, q, prefix_mode, rank, es.len() as int);
    let all = by_rank(es, hs);
    let s = first_n(all, limit);
    lemma_hits(es, q, prefix_mode, rank, es.len() as int);
    lemma_by_rank(es, hs);
    lemma_by_rank_multiset(es, hs);
    assert forall|i: int, j: int| 0 <= i < j < s.len() implies s[i].0 >= s[j].0 by {
        assert(s[i] == all[i] && s[j] == all[j]);
        assert(!precedes(es, all[j], all[i]));
    }
    assert forall|i: int, j: int| 0 <= i < j < s.len() && s[i].0 == s[j].0 implies !text_lt(
        es[s[j].1].path,
        es[s[i].1].path,
    ) by {
        assert(s[i] == all[i] && s[j] == all[j]);
        assert(!precedes(es, all[j], all[i]));
    }
    assert forall|j: int| 0 <= j < s.len() implies 0 <= #[trigger] s[j].1 < es.len() && query_hit(
        es[s[j].1],
        q,
        prefix_mode,
    ) && s[j].0 == rank[s[j].1] by {
        assert(s[j] == all[j]);
        assert(hs.contains(all[j]));
        let b = choose|b: int| 0 <= b < hs.len() && hs[b] == all[j];
        assert(hs[b] == s[j]);
    }
    assert forall|h: int| 0 <= h < hs.len() implies s.contains(#[trigger] hs[h]) || forall|j: int|
        0 <= j < s.len() ==> !precedes(es, hs[h], #[trigger] s[j]) by {
        let x = hs[h];
        vstd::seq_lib::to_multiset_contains(hs, x);
        assert(hs.to_multiset().count(x) > 0) by {
            assert(hs.contains(x));
        }
        vstd::seq_lib::to_multiset_contains(all, x);
        assert(all.contains(x));
        let k = choose|k: int| 0 <= k < all.len() && all[k] == x;
        if k < s.len() {
            assert(s[k] == x);
        } else {
            assert forall|j: int| 0 <= j < s.len() implies !precedes(es, x, #[trigger] s[j]) by {
                assert(s[j] == all[j]);
                assert(!precedes(es, all[k], all[j]));
            }
        }
    }
}

impl SearchIndex {
    /// An index with no entries.
    pub fn new() -> (idx: SearchIndex)
        ensures
            idx@.len() == 0,
    {
        SearchIndex { entries: Vec::new() }
    }

    /// Return the number of indexed entries
    pub fn count(&self) -> (n: usize)
        ensures
            n == self@.len(),
    {
        self.entries.len()
    }

    /// The lower-cased file name of entry `i`.
    pub fn entry_name(&self, i: usize) -> (r: &str)
        requires
            i < self@.len(),
        ensures
            r@ == self@[i as int].name,
    {
        self.entries[i].name_lower.as_str()
    }

    /// The path of entry `i`.
    pub fn entry_path(&self, i: usize) -> (r: &str)
        requires
            i < self@.len(),
        ensures
            r@ == self@[i as int].path,
    {
        self.entries[i].path.as_str()
    }

    /// Whether entry `i` lies in an application directory.
    pub fn is_app_entry(&self, i: usize) -> (b: bool)
        requires
            i < self@.len(),
        ensures
            b == is_app_path(self@[i as int].path_lower),
    {
        let p = chars_of(self.entries[i].path_lower.as_str());
        let dirs = [
            "\\program files\\",
            "\\program files (x86)\\",
            "\\start menu\\",
            "\\appdata\\local\\programs\\",
            "\\common files\\",
            "\\commonprogramfiles\\",
            "\\app\\",
            "\\application\\",
        ];
        let mut k: usize = 0;
        while k < 8
            invariant
                k <= 8,
                p@ == self@[i as int].path_lower,
                dirs@ == seq![
                    "\\program files\\",
                    "\\program files (x86)\\",
                    "\\start menu\\",
                    "\\appdata\\local\\programs\\",
                    "\\common files\\",
                    "\\commonprogramfiles\\",
                    "\\app\\",
                    "\\application\\",
                ],
                forall|j: int| 0 <= j < k ==> !has_infix(p@, (#[trigger] dirs@[j])@),
            decreases 8 - k,
        {
            let d = chars_of(dirs[k]);
            if contains_seq(&p, &d) {
                return true;
            }
            k += 1;
        }
        let r = chars_of("\\appdata\\roaming\\");
        let x = chars_of(".exe");
        contains_seq(&p, &r) && ends_with(&p, &x)
    }

    /// Whether the candidate `x` comes before `y` (see `precedes`).
    fn precedes_exec(&self, x: (u32, usize), y: (u32, usize)) -> (b: bool)
        requires
            x.1 < self@.len(),
            y.1 < self@.len(),
        ensures
            b == precedes(self@, (x.0, x.1 as int), (y.0, y.1 as int)),
    {
        if x.0 != y.0 {
            x.0 > y.0
        } else {
            let a = chars_of(self.entries[x.1].path.as_str());
            let b = chars_of(self.entries[y.1].path.as_str());
            text_less(&a, &b)
        }
    }

    /// The first `limit` of the candidates `cs` sorted (see `by_rank`),
    /// kept as they arrive: each goes in its place and the list is cut
    /// back to `limit`.
    fn keep_sorted(&self, cs: &Vec<(u32, usize)>, limit: usize) -> (r: Vec<(u32, usize)>)
        requires
            forall|k: int| 0 <= k < cs@.len() ==> #[trigger] cs@[k].1 < self@.len(),
        ensures
            r@.map_values(|c: (u32, usize)| (c.0, c.1 as int)) == first_n(
                by_rank(self@, cs@.map_values(|c: (u32, usize)| (c.0, c.1 as int))),
                limit as nat,
            ),
            forall|j: int| 0 <= j < r@.len() ==> #[trigger] r@[j].1 < self@.len(),
    {
        let ghost es = self@;
        let ghost sv = cs@.map_values(|c: (u32, usize)| (c.0, c.1 as int));
        let mut r: Vec<(u32, usize)> = Vec::new();
        let mut i: usize = 0;
        while i < cs.len()
            invariant
                i <= cs@.len(),
                es == self@,
                sv == cs@.map_values(|c: (u32, usize)| (c.0, c.1 as int)),
                r@.map_values(|c: (u32, usize)| (c.0, c.1 as int)) == first_n(by_rank(es, sv.take(i as int)), limit as nat),
                r@.len() <= limit,
                forall|k: int| 0 <= k < cs@.len() ==> #[trigger] cs@[k].1 < self@.len(),
                forall|j: int| 0 <= j < r@.len() ==> #[trigger] r@[j].1 < self@.len(),
            decreases cs.len() - i,
        {
            let x = cs[i];
            let ghost xv = (x.0, x.1 as int);
            let ghost rv = r@.map_values(|c: (u32, usize)| (c.0, c.1 as int));
            proof {
                lemma_bounded_insert(es, sv, i as int, limit as nat);
                assert(sv[i as int] == xv);
            }
            let mut p: usize = 0;
            while p < r.len() && !self.precedes_exec(x, r[p])
                invariant
                    p <= r@.len(),
                    x.1 < self@.len(),
                    xv == (x.0, x.1 as int),
                    es == self@,
                    rv == r@.map_values(|c: (u32, usize)| (c.0, c.1 as int)),
                    forall|j: int| 0 <= j < r@.len() ==> #[trigger] r@[j].1 < self@.len(),
                    first_after(es, rv, xv, 0) == first_after(es, rv, xv, p as int),
                decreases r.len() - p,
            {
                assert(rv[p as int] == (r@[p as int].0, r@[p as int].1 as int));
                p += 1;
            }
            assert(first_after(es, rv, xv, p as int) == p);
            let ghost ins = rv.insert(p as int, xv);
            if p < limit {
                let ghost r_before = r@;
                r.insert(p, x);
                assert(r@.map_values(|c: (u32, usize)| (c.0, c.1 as int)) == ins);
                assert forall|j: int| 0 <= j < r@.len() implies #[trigger] r@[j].1 < self@.len() by {
                    if j == p {
                        assert(r@[j] == cs@[i as int]);
                    } else if j < p {
                        assert(r@[j] == r_before[j]);
                    } else {
                        assert(r@[j] == r_before[j - 1]);
                    }
                }
                if r.len() > limit {
                    let ghost r_full = r@;
                    r.pop();
                    assert(r@ == r_full.drop_last());
                    assert(r@.map_values(|c: (u32, usize)| (c.0, c.1 as int)) =~= first_n(ins, limit as nat));
                } else {
                    assert(first_n(ins, limit as nat) == ins);
                }
            } else {
                assert(p == rv.len() && rv.len() == limit);
                assert(first_n(ins, limit as nat) =~= rv);
            }
            i += 1;
        }
        assert(sv.take(cs@.len() as int) == sv);
        r
    }

    fn hits_exec(&self, q: &Vec<char>, prefix_mode: bool, rank: &Vec<u32>) -> (r: Vec<(u32, usize)>)
        requires
            rank@.len() == self@.len(),
        ensures
            r@.map_values(|c: (u32, usize)| (c.0, c.1 as int)) == hits(self@, q@, prefix_mode, rank@, self@.len() as int),
            forall|k: int| 0 <= k < r@.len() ==> #[trigger] r@[k].1 < self@.len(),
    {
        let mut r: Vec<(u32, usize)> = Vec::new();
        let mut i: usize = 0;
        while i < self.entries.len()
            invariant
                i <= self.entries@.len(),
                rank@.len() == self.entries@.len(),
                r@.map_values(|c: (u32, usize)| (c.0, c.1 as int)) == hits(self@, q@, prefix_mode, rank@, i as int),
                forall|k: int| 0 <= k < r@.len() ==> #[trigger] r@[k].1 < i,
            decreases self.entries.len() - i,
        {
            let e = &self.entries[i];
            let hit = if prefix_mode {
                let n = chars_of(e.name_lower.as_str());
                starts_with(&n, q)
            } else {
                let n = chars_of(e.name_lower.as_str());
                let p = chars_of(e.path_lower.as_str());
                contains_seq(&n, q) || contains_seq(&p, q)
            };
            let ghost before = r@;
            if hit {
                r.push((rank[i], i));
                assert(r@.map_values(|c: (u32, usize)| (c.0, c.1 as int)) == before.map_values(
                    |c: (u32, usize)| (c.0, c.1 as int),
                ).push((rank@[i as int], i as int)));
            }
            i += 1;
        }
        r
    }

    /// Search with ranks given for every entry (`rank[i]` ranks entry `i`
    /// for this query, higher first): the matching entries, at most `limit`
    /// of them, best first.
    fn ranked_search(&self, q: &Vec<char>, prefix_mode: bool, limit: usize, rank: &Vec<u32>) -> (r: Vec<String>)
        requires
            rank@.len() == self@.len(),
            limit > 0 || hits(self@, q@, prefix_mode, rank@, self@.len() as int).len() == 0,
        ensures
            views(r@) == ranked(self@, q@, prefix_mode, rank@, limit as nat),
    {
        let cands = self.hits_exec(q, prefix_mode, rank);
        let sorted = self.keep_sorted(&cands, limit);
        let mut out: Vec<String> = Vec::new();
        let mut i: usize = 0;
        while i < sorted.len()
            invariant
                i <= sorted@.len(),
                forall|j: int| 0 <= j < sorted@.len() ==> sorted@[j].1 < self.entries@.len(),
                views(out@) == paths_of(self@, sorted@.map_values(|c: (u32, usize)| (c.0, c.1 as int)).take(i as int)),
            decreases sorted.len() - i,
        {
            let ghost out_before = out@;
            let idx = sorted[i].1;
            out.push(self.entries[idx].path.clone());
            let ghost sv = sorted@.map_values(|c: (u32, usize)| (c.0, c.1 as int));
            assert(sv.take(i + 1) == sv.take(i as int).push(sv[i as int]));
            assert(self@[idx as int].path == self.entries@[idx as int].path@);
            assert(views(out@) == views(out_before).push(self.entries@[idx as int].path@));
            assert(paths_of(self@, sv.take(i + 1)) == paths_of(self@, sv.take(i as int)).push(self@[idx as int].path));
            i += 1;
        }
        let ghost sv = sorted@.map_values(|c: (u32, usize)| (c.0, c.1 as int));
        assert(sv.take(sorted@.len() as int) == sv);
        out
    }

    /// Search for filenames that start with `prefix` (case-insensitive),
    /// ranked by `rank` (see `ranked`).
    pub fn search_prefix(&self, prefix: &str, limit: usize, rank: &Vec<u32>) -> (r: Vec<String>)
        requires
            rank@.len() == self@.len(),
            limit > 0 || hits(self@, lower(prefix@), true, rank@, self@.len() as int).len() == 0,
        ensures
            views(r@) == ranked(self@, lower(prefix@), true, rank@, limit as nat),
    {
        let q = to_lower(prefix);
        let qv = chars_of(q.as_str());
        self.ranked_search(&qv, true, limit, rank)
    }

    /// Search for `query` (case-insensitive) anywhere in file names or paths,
    /// ranked by `rank` (see `ranked`).
    pub fn search_query(&self, query: &str, limit: usize, rank: &Vec<u32>) -> (r: Vec<String>)
        requires
            rank@.len() == self@.len(),
            limit > 0 || hits(self@, lower(query@), false, rank@, self@.len() as int).len() == 0,
        ensures
            views(r@) == ranked(self@, lower(query@), false, rank@, limit as nat),
    {
        let q = to_lower(query);
        let qv = chars_of(q.as_str());
        self.ranked_search(&qv, false, limit, rank)
    }

    /// `search_prefix` where it is defined: `None` when `limit` is 0 and some
    /// entry matches (no room to keep a match), else the ranked results.
    pub fn try_search_prefix(&self, prefix: &str, limit: usize, rank: &Vec<u32>) -> (r: Option<Vec<String>>)
        requires
            rank@.len() == self@.len(),
        ensures
            ({
                let hs = hits(self@, lower(prefix@), true, rank@, self@.len() as int);
                &&& r is None <==> (limit == 0 && hs.len() > 0)
                &&& r matches Some(v) ==> views(v@) == ranked(self@, lower(prefix@), true, rank@, limit as nat)
            }),
    {
        let q = to_lower(prefix);
        let qv = chars_of(q.as_str());
        let cands = self.hits_exec(&qv, true, rank);
        if limit == 0 && cands.len() > 0 {
            return None;
        }
        Some(self.search_prefix(prefix, limit, rank))
    }

    /// `search_query` where it is defined: `None` when `limit` is 0 and some
    /// entry matches, else the ranked results.
    pub fn try_search_query(&self, query: &str, limit: usize, rank: &Vec<u32>) -> (r: Option<Vec<String>>)
        requires
            rank@.len() == self@.len(),
        ensures
            ({
                let hs = hits(self@, lower(query@), false, rank@, self@.len() as int);
                &&& r is None <==> (limit == 0 && hs.len() > 0)
                &&& r matches Some(v) ==> views(v@) == ranked(self@, lower(query@), false, rank@, limit as nat)
            }),
    {
        let q = to_lower(query);
        let qv = chars_of(q.as_str());
        let cands = self.hits_exec(&qv, false, rank);
        if limit == 0 && cands.len() > 0 {
            return None;
        }
        Some(self.search_query(query, limit, rank))
    }

    /// Search by extension (".ext" or "ext", case-insensitive): the paths of
    /// the entries with that extension, in index order, at most `limit` of
    /// them (the first one when `limit` is 0).
    pub fn search_by_extension(&self, ext: &str, limit: usize) -> (r: Vec<String>)
        ensures
            ({
                let hs = ext_hits(self@, lower(strip_leading(ext@, '.')), self@.len() as int);
                let cap: int = if limit == 0 {
                    1
                } else {
                    limit as int
                };
                views(r@) == hs.take(if hs.len() < cap {
                    hs.len() as int
                } else {
                    cap
                })
            }),
    {
        let v = chars_of(ext);
        let start = strip_leading_char(&v, '.');
        let stripped = string_from_range(&v, start, v.len());
        assert(v@.subrange(start as int, v@.len() as int) == v@.skip(start as int));
        let e = to_lower(stripped.as_str());
        assert(stripped@ == strip_leading(ext@, '.'));
        let ghost es = self@;
        let ghost cap: int = if limit == 0 {
            1
        } else {
            limit as int
        };
        let mut res: Vec<String> = Vec::new();
        let mut i: usize = 0;
        while i < self.entries.len()
            invariant
                i <= self.entries@.len(),
                es == self@,
                cap == (if limit == 0 {
                    1
                } else {
                    limit as int
                }),
                views(res@) == ext_hits(es, e@, i as int),
                e@ == lower(strip_leading(ext@, '.')),
                res@.len() < cap,
            decreases self.entries.len() - i,
        {
            if same_text(self.entries[i].ext_lower.as_str(), e.as_str()) {
                res.push(self.entries[i].path.clone());
                assert(views(res@) == ext_hits(es, e@, i + 1));
                if res.len() >= limit {
                    proof {
                        lemma_ext_hits_grow(es, e@, i + 1, es.len() as int);
                    }
                    assert(views(res@).len() == cap);
                    return res;
                }
            }
            i += 1;
        }
        res
    }
}

} // verus!
