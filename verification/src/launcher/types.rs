//! Plain data shared by the launcher: desktop entries, search results, errors.
use vstd::prelude::*;

verus! {

/// One launchable application, as collected from an XDG desktop file.
#[derive(Debug)]
pub struct AppEntry {
    /// Unique identifier: the path of the desktop file.
    pub id: String,
    pub name: String,
    pub description: Option<String>,
    pub icon: Option<String>,
    pub command: String,
    pub terminal: bool,
    pub categories: Vec<String>,
    pub keywords: Vec<String>,
    /// Desktop file path, for display and launch purposes.
    pub desktop_file: String,
}

/// The characters of an optional string.
pub open spec fn opt_view(s: Option<String>) -> Option<Seq<char>> {
    match s {
        Some(v) => Some(v@),
        None => None,
    }
}

/// The characters of each string.
pub open spec fn views(v: Seq<String>) -> Seq<Seq<char>> {
    v.map_values(|s: String| s@)
}

/// The content of an [`AppEntry`].
pub struct AppEntryView {
    pub id: Seq<char>,
    pub name: Seq<char>,
    pub description: Option<Seq<char>>,
    pub icon: Option<Seq<char>>,
    pub command: Seq<char>,
    pub terminal: bool,
    pub categories: Seq<Seq<char>>,
    pub keywords: Seq<Seq<char>>,
    pub desktop_file: Seq<char>,
}

impl View for AppEntry {
    type V = AppEntryView;

    open spec fn view(&self) -> AppEntryView {
        AppEntryView {
            id: self.id@,
            name: self.name@,
            description: opt_view(self.description),
            icon: opt_view(self.icon),
            command: self.command@,
            terminal: self.terminal,
            categories: views(self.categories@),
            keywords: views(self.keywords@),
            desktop_file: self.desktop_file@,
        }
    }
}

/// A copy of an optional string.
pub fn copy_opt_string(s: &Option<String>) -> (r: Option<String>)
    ensures
        r == *s,
{
    match s {
        Some(v) => Some(v.clone()),
        None => None,
    }
}

/// A copy of a list of strings.
pub fn copy_strings(v: &Vec<String>) -> (r: Vec<String>)
    ensures
        r@ == v@,
{
    let mut r: Vec<String> = Vec::new();
    let mut i: usize = 0;
    while i < v.len()
        invariant
            i <= v.len(),
            r@ == v@.take(i as int),
        decreases v.len() - i,
    {
        r.push(v[i].clone());
        proof {
            assert(r@ =~= v@.take(i + 1));
        }
        i += 1;
    }
    proof {
        assert(r@ =~= v@);
    }
    r
}

impl AppEntry {
    /// A field-by-field copy of this entry.
    pub fn duplicate(&self) -> (r: AppEntry)
        ensures
            r@ == self@,
    {
        AppEntry {
            id: self.id.clone(),
            name: self.name.clone(),
            description: copy_opt_string(&self.description),
            icon: copy_opt_string(&self.icon),
            command: self.command.clone(),
            terminal: self.terminal,
            categories: copy_strings(&self.categories),
            keywords: copy_strings(&self.keywords),
                desktop_file: self.desktop_file.clone(),
        }
    }
}

/// One ranked search hit.
///
/// The relevance score is the exact fraction `score_num / score_den`, in `[0, 1]`;
/// every result of one ranking shares the same denominator.
#[derive(Debug)]
pub struct SearchResult {
    pub entry: AppEntry,
    pub score_num: u128,
    pub score_den: u128,
    pub launch_count: u32,
}

/// What the launcher was asked to start.
#[derive(Debug)]
pub enum LaunchTarget {
    App { id: String },
    Command { cmd: String },
}

/// A launcher failure, carried to the frontend as its message.
#[derive(Debug)]
pub struct LauncherError {
    pub message: String,
}

impl LauncherError {
    /// The message of this error.
    pub fn into_message(self) -> (r: String)
        ensures
            r == self.message,
    {
        self.message
    }
}

} // verus!
