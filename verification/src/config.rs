//! What one invocation asks for.

use vstd::prelude::*;

verus! {

/// The settings of one run. They are fixed once made.
pub struct AppConfig {
    target_path: String,
    recursive: bool,
    hidden: bool,
}

/// What an [`AppConfig`] holds, as plain values.
pub struct AppConfigView {
    /// The file or directory to process.
    pub target_path: Seq<char>,
    /// Whether the walk goes down into subdirectories.
    pub recursive: bool,
    /// Whether hidden files are renamed like any other.
    pub include_hidden: bool,
}

impl View for AppConfig {
    type V = AppConfigView;

    closed spec fn view(&self) -> AppConfigView {
        AppConfigView {
            target_path: self.target_path@,
            recursive: self.recursive,
            include_hidden: self.hidden,
        }
    }
}

impl AppConfig {
    /// The settings for `target_path`. Both flags are off unless they were given.
    pub fn new(target_path: String, recursive: bool, hidden: bool) -> (config: AppConfig)
        ensures
            config@ == (AppConfigView {
                target_path: target_path@,
                recursive,
                include_hidden: hidden,
            }),
    {
        AppConfig { target_path, recursive, hidden }
    }

    /// The file or directory to process.
    pub fn target_path(&self) -> (path: &String)
        ensures
            path@ == self@.target_path,
    {
        &self.target_path
    }

    /// Whether the walk goes down into subdirectories.
    pub fn recursive(&self) -> (recursive: bool)
        ensures
            recursive == self@.recursive,
    {
        self.recursive
    }

    /// Whether hidden files are renamed like any other.
    pub fn hidden(&self) -> (hidden: bool)
        ensures
            hidden == self@.include_hidden,
    {
        self.hidden
    }
}

} // verus!
