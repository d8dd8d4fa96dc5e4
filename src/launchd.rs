//! The service-manager descriptor that has the daemon started at login, and
//! the commands that register and unregister it.
use vstd::prelude::*;
use vstd::string::StringExecFns;
use crate::paths::{dir_prefix, join, join_path, name_start_index, lemma_name_start_bounds};
use vstd::string::StrSliceExecFns;

verus! {

/// The descriptor, relative to the home directory.
pub const PLIST_RELATIVE_PATH: &'static str = "Library/LaunchAgents/com.anubhavitis.peeksy.plist";

/// The descriptor: run `peeksy daemon` at login, do not keep it alive, and
/// send its output to fixed files.
pub const PLIST: &'static str = r#"<?xml version="1.0" encoding="UTF-8"?>
        <!DOCTYPE plist PUBLIC "-//Apple//DTD PLIST 1.0//EN" "http://www.apple.com/DTDs/PropertyList-1.0.dtd">
        <plist version="1.0">
        <dict>
            <key>Label</key>
            <string>com.anubhavitis.peeksy</string>
            <key>ProgramArguments</key>
            <array>
                <string>/opt/homebrew/bin/peeksy</string>
                <string>daemon</string>
            </array>
            <key>RunAtLoad</key>
            <true/>
            <key>KeepAlive</key>
            <false/>
            <key>StandardOutPath</key>
            <string>/tmp/peeksy.out</string>
            <key>StandardErrorPath</key>
            <string>/tmp/peeksy.err</string>
        </dict>
        </plist>"#;

/// The program that loads and unloads descriptors.
pub const LAUNCHCTL: &'static str = "launchctl";

/// Where the descriptor lives.
#[derive(Clone, Debug)]
pub struct LaunchD {
    pub plist_path: String,
}

impl LaunchD {
    /// The descriptor's place under the home directory `home`.
    pub fn new(home: &str) -> (r: LaunchD)
        ensures
            r.plist_path@ == join(home@, PLIST_RELATIVE_PATH@),
    {
        LaunchD { plist_path: join_path(home, PLIST_RELATIVE_PATH) }
    }

    /// The directory that must exist before the descriptor is written.
    pub fn plist_dir(&self) -> (r: String)
        ensures
            r@ == dir_prefix(self.plist_path@),
    {
        let s = name_start_index(self.plist_path.as_str());
        proof {
            lemma_name_start_bounds(self.plist_path@);
        }
        String::from_str(self.plist_path.as_str().substring_char(0, s))
    }

    /// The arguments of `launchctl` that register the descriptor.
    pub fn load_args(&self) -> (r: Vec<String>)
        ensures
            r@.len() == 2,
            r@[0]@ == "load"@,
            r@[1]@ == self.plist_path@,
    {
        let mut v: Vec<String> = Vec::new();
        v.push(String::from_str("load"));
        v.push(self.plist_path.clone());
        v
    }

    /// The arguments of `launchctl` that unregister the descriptor.
    pub fn unload_args(&self) -> (r: Vec<String>)
        ensures
            r@.len() == 2,
            r@[0]@ == "unload"@,
            r@[1]@ == self.plist_path@,
    {
        let mut v: Vec<String> = Vec::new();
        v.push(String::from_str("unload"));
        v.push(self.plist_path.clone());
        v
    }
}

} // verus!
