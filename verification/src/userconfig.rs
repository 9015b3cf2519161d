//! The user configuration values the engine reads, and the defaulting
//! policy that fills in what the configuration file left out.
//!
//! Reading and writing the file on disk belongs to the unverified shell;
//! it hands the optional values it parsed to [`UserConfig::from_parts`].

use vstd::prelude::*;

verus! {

/// Directory created under the user's audio directory when no library
/// directory is configured.
const DEFAULT_DIR_NAME: &'static str = "recordplayer";

/// The configuration of the library: where it lives on disk and whether
/// imported files are copied into it.
pub struct UserConfig {
    path: String,
    library_dir: String,
    copy_on_import: bool,
}

impl UserConfig {
    /// The path of the configuration file itself.
    pub closed spec fn spec_path(&self) -> Seq<char> {
        self.path@
    }

    /// The configured library directory.
    pub closed spec fn spec_library_dir(&self) -> Seq<char> {
        self.library_dir@
    }

    /// Whether imports copy files into the library directory.
    pub closed spec fn spec_copy_on_import(&self) -> bool {
        self.copy_on_import
    }

    /// Applies the defaulting policy to what the configuration file held:
    /// a missing library directory becomes the default directory under
    /// the user's audio directory, and copying on import defaults to on.
    pub fn from_parts(
        path: String,
        library_dir: Option<String>,
        audio_dir: String,
        copy_on_import: Option<bool>,
    ) -> (r: UserConfig)
        ensures
            r.spec_path() == path@,
            r.spec_library_dir() == match library_dir {
                Some(d) => d@,
                None => audio_dir@ + "/"@ + "recordplayer"@,
            },
            r.spec_copy_on_import() == match copy_on_import {
                Some(c) => c,
                None => true,
            },
    {
        let dir = match library_dir {
            Some(d) => d,
            None => {
                let mut d = audio_dir;
                d.append("/");
                d.append(DEFAULT_DIR_NAME);
                d
            },
        };
        UserConfig {
            path,
            library_dir: dir,
            copy_on_import: match copy_on_import {
                Some(c) => c,
                None => true,
            },
        }
    }

    /// The directory imported files are placed in.
    pub fn library_dir(&self) -> (r: &String)
        ensures
            r@ == self.spec_library_dir(),
    {
        &self.library_dir
    }

    /// Whether imports copy files into the library directory.
    pub fn copy_on_import(&self) -> (r: bool)
        ensures
            r == self.spec_copy_on_import(),
    {
        self.copy_on_import
    }
}

} // verus!
