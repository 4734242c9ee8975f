//! The event filter: which file-system events matter to a rebuild.

use vstd::prelude::*;
use crate::paths::{
    extension_chars, extension_of, has_component, is_normal, is_normal_component, path_segments,
    segments,
};
use crate::text::{chars_of, ends_with, has_suffix, holds_text, rows, texts};

verus! {

/// What happened to the paths of an event.
#[derive(Clone, Copy, Debug, PartialEq, Eq, Structural)]
pub enum ChangeKind {
    /// A file or directory was created.
    Created,
    /// A file or directory was changed.
    Modified,
    /// A file or directory was removed.
    Removed,
    /// Anything else the backend reports, such as a read access.
    Other,
}

/// A file-system notification.
#[derive(Clone, Debug)]
pub struct ChangeEvent {
    /// What happened.
    pub kind: ChangeKind,
    /// The paths it happened to.
    pub paths: Vec<String>,
    /// When the backend saw it, in milliseconds.
    pub timestamp: u64,
}

/// The mathematical content of a [`ChangeEvent`].
pub struct EventModel {
    pub kind: ChangeKind,
    pub paths: Seq<Seq<char>>,
    pub timestamp: nat,
}

impl View for ChangeEvent {
    type V = EventModel;

    open spec fn view(&self) -> EventModel {
        EventModel {
            kind: self.kind,
            paths: texts(self.paths@),
            timestamp: self.timestamp as nat,
        }
    }
}

/// What is watched and what is left out.
#[derive(Clone, Debug)]
pub struct WatchScope {
    /// The project directory.
    pub root: String,
    /// The entries under the root that are watched, in watch order.
    pub watched_entries: Vec<String>,
    /// Component names that exclude a path.
    pub excluded_names: Vec<String>,
    /// Component endings that exclude a path.
    pub excluded_suffixes: Vec<String>,
    /// The file extensions that matter.
    pub allowed_extensions: Vec<String>,
}

/// The mathematical content of a [`WatchScope`].
pub struct ScopeModel {
    pub root: Seq<char>,
    pub watched_entries: Seq<Seq<char>>,
    pub excluded_names: Seq<Seq<char>>,
    pub excluded_suffixes: Seq<Seq<char>>,
    pub allowed_extensions: Seq<Seq<char>>,
}

impl View for WatchScope {
    type V = ScopeModel;

    open spec fn view(&self) -> ScopeModel {
        ScopeModel {
            root: self.root@,
            watched_entries: texts(self.watched_entries@),
            excluded_names: texts(self.excluded_names@),
            excluded_suffixes: texts(self.excluded_suffixes@),
            allowed_extensions: texts(self.allowed_extensions@),
        }
    }
}

/// The entries of a bundle project that are watched.
pub open spec fn default_watched_entries() -> Seq<Seq<char>> {
    seq!["src"@, "tests"@, "pyproject.toml"@]
}

/// The directory names that never hold sources.
pub open spec fn default_excluded_names() -> Seq<Seq<char>> {
    seq!["dist"@, "build"@, ".venv"@, "__pycache__"@, ".git"@, "htmlcov"@]
}

/// The directory name endings that never hold sources.
pub open spec fn default_excluded_suffixes() -> Seq<Seq<char>> {
    seq![".egg-info"@]
}

/// The extensions of the files a bundle is built from.
pub open spec fn default_allowed_extensions() -> Seq<Seq<char>> {
    seq!["py"@, "pyi"@, "toml"@, "cxc"@]
}

/// The scope of a bundle project rooted at `root`.
pub open spec fn default_scope(root: Seq<char>) -> ScopeModel {
    ScopeModel {
        root,
        watched_entries: default_watched_entries(),
        excluded_names: default_excluded_names(),
        excluded_suffixes: default_excluded_suffixes(),
        allowed_extensions: default_allowed_extensions(),
    }
}

/// Whether a component ends with one of the suffixes.
pub open spec fn has_excluded_suffix(c: Seq<char>, suffixes: Seq<Seq<char>>) -> bool {
    exists|k: int| 0 <= k < suffixes.len() && ends_with(c, #[trigger] suffixes[k])
}

/// Whether a component excludes the path it stands in: it equals an excluded
/// name, or it ends with an excluded suffix.
pub open spec fn component_excluded(c: Seq<char>, scope: ScopeModel) -> bool {
    scope.excluded_names.contains(c) || has_excluded_suffix(c, scope.excluded_suffixes)
}

/// Whether some normal component of the path excludes it.
pub open spec fn path_excluded(path: Seq<char>, scope: ScopeModel) -> bool {
    exists|i: int|
        0 <= i < segments(path).len() && is_normal_component(#[trigger] segments(path)[i])
            && component_excluded(segments(path)[i], scope)
}

/// Whether the path has an extension that the scope allows.
pub open spec fn extension_allowed(path: Seq<char>, scope: ScopeModel) -> bool {
    match extension_of(path) {
        Some(ext) => scope.allowed_extensions.contains(ext),
        None => false,
    }
}

/// Whether a change to the path calls for a rebuild.
pub open spec fn path_relevant(path: Seq<char>, scope: ScopeModel) -> bool {
    !path_excluded(path, scope) && extension_allowed(path, scope)
}

/// Whether the kind of an event can call for a rebuild.
pub open spec fn kind_relevant(kind: ChangeKind) -> bool {
    kind == ChangeKind::Created || kind == ChangeKind::Modified || kind == ChangeKind::Removed
}

/// Whether an event calls for a rebuild: its kind is a creation, a change
/// or a removal, and at least one of its paths is relevant.
pub open spec fn event_relevant(event: EventModel, scope: ScopeModel) -> bool {
    kind_relevant(event.kind) && exists|i: int|
        0 <= i < event.paths.len() && path_relevant(#[trigger] event.paths[i], scope)
}

impl WatchScope {
    /// The scope of a bundle project rooted at `root`: its sources, tests and
    /// manifest, without build output, caches and environments.
    pub fn for_project(root: &str) -> (scope: WatchScope)
        ensures
            scope@ == default_scope(root@),
    {
        let mut watched_entries: Vec<String> = Vec::new();
        watched_entries.push("src".to_owned());
        watched_entries.push("tests".to_owned());
        watched_entries.push("pyproject.toml".to_owned());
        let mut excluded_names: Vec<String> = Vec::new();
        excluded_names.push("dist".to_owned());
        excluded_names.push("build".to_owned());
        excluded_names.push(".venv".to_owned());
        excluded_names.push("__pycache__".to_owned());
        excluded_names.push(".git".to_owned());
        excluded_names.push("htmlcov".to_owned());
        let mut excluded_suffixes: Vec<String> = Vec::new();
        excluded_suffixes.push(".egg-info".to_owned());
        let mut allowed_extensions: Vec<String> = Vec::new();
        allowed_extensions.push("py".to_owned());
        allowed_extensions.push("pyi".to_owned());
        allowed_extensions.push("toml".to_owned());
        allowed_extensions.push("cxc".to_owned());
        proof {
            assert(texts(watched_entries@) =~= default_watched_entries());
            assert(texts(excluded_names@) =~= default_excluded_names());
            assert(texts(excluded_suffixes@) =~= default_excluded_suffixes());
            assert(texts(allowed_extensions@) =~= default_allowed_extensions());
        }
        WatchScope {
            root: root.to_owned(),
            watched_entries,
            excluded_names,
            excluded_suffixes,
            allowed_extensions,
        }
    }
}

/// Whether a component ends with one of the suffixes.
fn ends_with_any(c: &Vec<char>, suffixes: &Vec<String>) -> (found: bool)
    ensures
        found == has_excluded_suffix(c@, texts(suffixes@)),
{
    let mut k: usize = 0;
    while k < suffixes.len()
        invariant
            k <= suffixes.len(),
            forall|j: int| 0 <= j < k ==> !ends_with(c@, #[trigger] texts(suffixes@)[j]),
        decreases suffixes.len() - k,
    {
        let suffix = chars_of(suffixes[k].as_str());
        if has_suffix(c, &suffix) {
            assert(ends_with(c@, texts(suffixes@)[k as int]));
            return true;
        }
        k += 1;
    }
    false
}

/// Whether a component excludes the path it stands in.
pub fn component_is_excluded(c: &Vec<char>, scope: &WatchScope) -> (excluded: bool)
    ensures
        excluded == component_excluded(c@, scope@),
{
    holds_text(&scope.excluded_names, c) || ends_with_any(c, &scope.excluded_suffixes)
}

/// Whether some normal component of the path excludes it.
pub fn path_is_excluded(path: &str, scope: &WatchScope) -> (excluded: bool)
    ensures
        excluded == path_excluded(path@, scope@),
{
    let p = chars_of(path);
    let segs = path_segments(&p);
    let mut i: usize = 0;
    while i < segs.len()
        invariant
            i <= segs.len(),
            rows(segs@) == segments(path@),
            forall|j: int|
                0 <= j < i ==> !(is_normal_component(#[trigger] segments(path@)[j])
                    && component_excluded(segments(path@)[j], scope@)),
        decreases segs.len() - i,
    {
        assert(rows(segs@)[i as int] == segs@[i as int]@);
        if is_normal(&segs[i]) && component_is_excluded(&segs[i], scope) {
            return true;
        }
        i += 1;
    }
    false
}

/// Whether a path lies in a directory that a bundle project never builds
/// from: build output, caches, environments, version control.
pub fn should_ignore_path(path: &str) -> (ignored: bool)
    ensures
        ignored == path_excluded(path@, default_scope(Seq::<char>::empty())),
{
    let scope = WatchScope::for_project("");
    proof {
        reveal_strlit("");
        assert(""@ =~= Seq::<char>::empty());
    }
    path_is_excluded(path, &scope)
}

/// Whether a change to the path calls for a rebuild.
pub fn path_is_relevant(path: &str, scope: &WatchScope) -> (relevant: bool)
    ensures
        relevant == path_relevant(path@, scope@),
{
    if path_is_excluded(path, scope) {
        return false;
    }
    let p = chars_of(path);
    match extension_chars(&p) {
        None => false,
        Some(ext) => holds_text(&scope.allowed_extensions, &ext),
    }
}

/// Whether an event calls for a rebuild.
pub fn is_relevant(event: &ChangeEvent, scope: &WatchScope) -> (relevant: bool)
    ensures
        relevant == event_relevant(event@, scope@),
{
    match event.kind {
        ChangeKind::Other => {
            return false;
        },
        _ => {},
    }
    let mut i: usize = 0;
    while i < event.paths.len()
        invariant
            i <= event.paths.len(),
            kind_relevant(event@.kind),
            forall|j: int| 0 <= j < i ==> !path_relevant(#[trigger] event@.paths[j], scope@),
        decreases event.paths.len() - i,
    {
        if path_is_relevant(event.paths[i].as_str(), scope) {
            assert(path_relevant(event@.paths[i as int], scope@));
            return true;
        }
        i += 1;
    }
    false
}

/// Whether an event in the bundle project at `project_dir` calls for a
/// rebuild.
pub fn is_relevant_change(event: &ChangeEvent, project_dir: &str) -> (relevant: bool)
    ensures
        relevant == event_relevant(event@, default_scope(project_dir@)),
{
    let scope = WatchScope::for_project(project_dir);
    is_relevant(event, &scope)
}

/// A path with a component that equals an excluded name is excluded.
pub proof fn lemma_excluded_name_excludes_path(
    path: Seq<char>,
    name: Seq<char>,
    scope: ScopeModel,
)
    requires
        has_component(path, name),
        scope.excluded_names.contains(name),
    ensures
        path_excluded(path, scope),
        !path_relevant(path, scope),
{
    let i = choose|i: int| 0 <= i < segments(path).len() && segments(path)[i] == name;
    assert(is_normal_component(segments(path)[i]) && component_excluded(segments(path)[i], scope));
}

/// An event is never relevant when each of its paths has a component that
/// equals an excluded name, whatever the extensions of the paths are.
pub proof fn lemma_excluded_components_reject_event(event: EventModel, scope: ScopeModel)
    requires
        forall|i: int|
            0 <= i < event.paths.len() ==> exists|name: Seq<char>|
                has_component(#[trigger] event.paths[i], name) && scope.excluded_names.contains(
                    name,
                ),
    ensures
        !event_relevant(event, scope),
{
    assert forall|i: int| 0 <= i < event.paths.len() implies !path_relevant(
        #[trigger] event.paths[i],
        scope,
    ) by {
        let name = choose|name: Seq<char>|
            has_component(event.paths[i], name) && scope.excluded_names.contains(name);
        lemma_excluded_name_excludes_path(event.paths[i], name, scope);
    }
}

/// Whether a name is one of the directory names that never hold sources.
pub open spec fn is_default_exclusion(name: Seq<char>) -> bool {
    name == "dist"@ || name == "build"@ || name == ".venv"@ || name == "__pycache__"@ || name
        == ".git"@ || name == "htmlcov"@
}

/// In a bundle project, an event is never relevant when each of its paths
/// has a component that is exactly `dist`, `build`, `.venv`, `__pycache__`,
/// `.git` or `htmlcov`, whatever the extensions of the paths are.
pub proof fn lemma_default_exclusions_reject_event(event: EventModel, root: Seq<char>)
    requires
        forall|i: int|
            0 <= i < event.paths.len() ==> exists|name: Seq<char>|
                has_component(#[trigger] event.paths[i], name) && is_default_exclusion(name),
    ensures
        !event_relevant(event, default_scope(root)),
{
    let names = default_excluded_names();
    assert(names[0] == "dist"@ && names[1] == "build"@ && names[2] == ".venv"@ && names[3]
        == "__pycache__"@ && names[4] == ".git"@ && names[5] == "htmlcov"@);
    assert forall|i: int| 0 <= i < event.paths.len() implies !path_relevant(
        #[trigger] event.paths[i],
        default_scope(root),
    ) by {
        let name = choose|name: Seq<char>|
            has_component(event.paths[i], name) && is_default_exclusion(name);
        assert(names.contains(name));
        lemma_excluded_name_excludes_path(event.paths[i], name, default_scope(root));
    }
}

/// An event whose kind is neither a creation, a change nor a removal is
/// never relevant.
pub proof fn lemma_other_kinds_are_irrelevant(event: EventModel, scope: ScopeModel)
    requires
        event.kind == ChangeKind::Other,
    ensures
        !event_relevant(event, scope),
{
}

} // verus!
