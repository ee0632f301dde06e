//! The two settings of the store: the root directory of its files and the number
//! of threads that the embedded engine may use.

use crate::storage::{join_path, path_joined, text_of};
use vstd::prelude::*;
use vstd::string::StringExecFns;

verus! {

/// The fewest threads that the setting takes.
pub const MIN_THREADS: i32 = 1;

/// The most threads that the setting takes.
pub const MAX_THREADS: i32 = 64;

/// The number of threads where nothing was set.
pub const DEFAULT_THREADS: i32 = 4;

/// What a setting holds: a text, or a number between two bounds.
#[derive(Debug, PartialEq, Eq)]
pub enum GucValue {
    Text { default_text: Option<String> },
    Int { default_number: i32, min: i32, max: i32 },
}

/// A setting as the host registers it. Every user may set it.
#[derive(Debug, PartialEq, Eq)]
pub struct GucDefinition {
    pub name: String,
    pub short_description: String,
    pub long_description: String,
    pub value: GucValue,
}

/// The settings of the store.
#[derive(Debug, PartialEq, Eq)]
pub struct ElephantduckGucSettings {
    pub path: Option<String>,
    pub threads: i32,
}

/// The root directory of the store under the host's data directory, or under
/// `/tmp` where the host has none.
pub open spec fn default_path(data_root: Option<Seq<char>>) -> Seq<char> {
    path_joined(
        match data_root {
            Some(root) => root,
            None => "/tmp"@,
        },
        "elephantduck"@,
    )
}

impl ElephantduckGucSettings {
    /// The number of threads lies between the bounds of the setting.
    pub open spec fn wf(&self) -> bool {
        MIN_THREADS <= self.threads <= MAX_THREADS
    }

    /// The settings where nothing was set, for a host with the given data directory.
    pub fn new(data_root: Option<String>) -> (r: Self)
        ensures
            r.wf(),
            text_of(r.path) == Some(default_path(text_of(data_root))),
            r.threads == DEFAULT_THREADS,
    {
        let path = match data_root {
            Some(root) => join_path(root.as_str(), "elephantduck"),
            None => join_path("/tmp", "elephantduck"),
        };
        Self { path: Some(path), threads: DEFAULT_THREADS }
    }

    /// The definitions under which the host registers the two settings: the path
    /// first, then the number of threads with its bounds.
    pub fn init(&self) -> (r: Vec<GucDefinition>)
        ensures
            r@.len() == 2,
            r@[0].name@ == "elephantduck.path"@,
            r@[0].short_description@
                == "Specifies the directory where ElephantDuck will store parquet files."@,
            r@[0].long_description@ == r@[0].short_description@,
            r@[0].value matches GucValue::Text { default_text } && text_of(default_text) == text_of(
                self.path,
            ),
            r@[1].name@ == "elephantduck.threads"@,
            r@[1].short_description@
                == "Specifies the number of threads to use for ElephantDuck operations."@,
            r@[1].long_description@ == r@[1].short_description@,
            r@[1].value == (GucValue::Int {
                default_number: self.threads,
                min: MIN_THREADS,
                max: MAX_THREADS,
            }),
    {
        let mut definitions: Vec<GucDefinition> = Vec::new();
        definitions.push(
            GucDefinition {
                name: String::from_str("elephantduck.path"),
                short_description: String::from_str(
                    "Specifies the directory where ElephantDuck will store parquet files.",
                ),
                long_description: String::from_str(
                    "Specifies the directory where ElephantDuck will store parquet files.",
                ),
                value: GucValue::Text { default_text: self.path.clone() },
            },
        );
        definitions.push(
            GucDefinition {
                name: String::from_str("elephantduck.threads"),
                short_description: String::from_str(
                    "Specifies the number of threads to use for ElephantDuck operations.",
                ),
                long_description: String::from_str(
                    "Specifies the number of threads to use for ElephantDuck operations.",
                ),
                value: GucValue::Int {
                    default_number: self.threads,
                    min: MIN_THREADS,
                    max: MAX_THREADS,
                },
            },
        );
        definitions
    }

    /// Sets the number of threads, where it lies between the bounds of the setting.
    /// Says whether it did.
    pub fn set_threads(&mut self, threads: i32) -> (accepted: bool)
        ensures
            accepted == (MIN_THREADS <= threads <= MAX_THREADS),
            final(self).threads == if accepted {
                threads
            } else {
                old(self).threads
            },
            final(self).path == old(self).path,
    {
        if threads < MIN_THREADS || threads > MAX_THREADS {
            false
        } else {
            self.threads = threads;
            true
        }
    }
}

/// The definitions under which the host registers the settings.
pub fn init_gucs(settings: &ElephantduckGucSettings) -> (r: Vec<GucDefinition>)
    ensures
        r@.len() == 2,
        r@[0].name@ == "elephantduck.path"@,
        r@[0].value matches GucValue::Text { default_text } && text_of(default_text) == text_of(
            settings.path,
        ),
        r@[1].name@ == "elephantduck.threads"@,
        r@[1].value == (GucValue::Int {
            default_number: settings.threads,
            min: MIN_THREADS,
            max: MAX_THREADS,
        }),
{
    settings.init()
}

/// The root directory of the store, where one is set.
pub fn get_elephantduck_path(settings: &ElephantduckGucSettings) -> (r: Option<&str>)
    ensures
        match r {
            Some(path) => text_of(settings.path) == Some(path@),
            None => settings.path is None,
        },
{
    match &settings.path {
        Some(path) => Some(path.as_str()),
        None => None,
    }
}

/// The number of threads that the embedded engine may use.
pub fn get_elephantduck_threads(settings: &ElephantduckGucSettings) -> (r: i32)
    ensures
        r == settings.threads,
{
    settings.threads
}

} // verus!
