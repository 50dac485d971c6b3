//! Preferences and the locations of the files the calendar keeps.
use vstd::prelude::*;
use crate::text::owned;
use crate::theme::{DanceStyle, ThemeKind};

verus! {

/// The stored preferences.
pub struct Settings {
    pub first_day_of_week: u8,
    pub theme: String,
    pub dance_style: String,
}

impl Default for Settings {
    /// Weeks start on Monday, with the default theme and no dancer.
    fn default() -> (r: Settings)
        ensures
            r.first_day_of_week == 0,
            r.theme@ == "default"@,
            r.dance_style@ == "none"@,
    {
        Settings { first_day_of_week: 0, theme: owned("default"), dance_style: owned("none") }
    }
}

impl Settings {
    /// The theme that the stored name stands for (`Default` for unknown names).
    pub fn theme_kind(&self) -> (r: ThemeKind)
        ensures
            r == ThemeKind::named(self.theme@),
    {
        ThemeKind::from_name(self.theme.as_str())
    }

    /// The dance style that the stored name stands for (`Off` for unknown names).
    pub fn dance_style(&self) -> (r: DanceStyle)
        ensures
            r == DanceStyle::named(self.dance_style@),
    {
        DanceStyle::from_name(self.dance_style.as_str())
    }
}

/// Where the calendar keeps its files.
pub struct Config {
    pub credentials_path: String,
    pub token_path: String,
    pub settings_path: String,
}

/// What `Path::parent` gives for a path.
pub uninterp spec fn parent_of(p: Seq<char>) -> Option<Seq<char>>;

/// What `Path::join` gives for a base path and a relative name.
pub uninterp spec fn joined(base: Seq<char>, name: Seq<char>) -> Seq<char>;

/// `Path::parent`: the path without its last component; none for an empty
/// path or one that ends in a root.
#[verifier::external_body]
fn path_parent(p: &str) -> (r: Option<String>)
    ensures
        opt_seq(r) == parent_of(p@),
        p@.len() == 0 ==> r is None,
{
    match std::path::Path::new(p).parent() {
        Some(q) => Some(q.to_string_lossy().into_owned()),
        None => None,
    }
}

/// `Path::join`: the path of `name` inside `base`.
#[verifier::external_body]
fn path_join(base: &str, name: &str) -> (r: String)
    ensures
        r@ == joined(base@, name@),
{
    std::path::Path::new(base).join(name).to_string_lossy().into_owned()
}

/// The characters of an optional string.
pub open spec fn opt_seq(s: Option<String>) -> Option<Seq<char>> {
    match s {
        Some(x) => Some(x@),
        None => None,
    }
}

impl Config {
    /// The event store lives beside the credentials file.
    pub fn events_path(&self) -> (r: String)
        requires
            parent_of(self.credentials_path@) is Some,
        ensures
            r@ == joined(parent_of(self.credentials_path@)->0, "events.json"@),
    {
        match path_parent(self.credentials_path.as_str()) {
            Some(dir) => path_join(dir.as_str(), "events.json"),
            None => {
                assert(false);
                String::new()
            },
        }
    }

    /// The event store's path, or none when the credentials path has no
    /// parent directory.
    pub fn try_events_path(&self) -> (r: Option<String>)
        ensures
            parent_of(self.credentials_path@) is None ==> r is None,
            parent_of(self.credentials_path@) is Some ==> r is Some && r->0@ == joined(
                parent_of(self.credentials_path@)->0,
                "events.json"@,
            ),
    {
        match path_parent(self.credentials_path.as_str()) {
            Some(_) => Some(self.events_path()),
            None => None,
        }
    }
}

} // verus!
