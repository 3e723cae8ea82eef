//! Library entries of the version manifest and their mapping from Maven
//! coordinates to filesystem paths.

use vstd::prelude::*;
use std::collections::HashMap;
use crate::downloads::DownloadableObject;
use crate::rules::{OsKind, Rule};
use crate::text::{
    chars_to_string, join_with, spec_join, spec_split, split_char, str_to_chars, subrange_chars,
};
use crate::util::{path_separator, spec_path_separator};

verus! {

/// Names of native-library classifiers per platform.
#[derive(Debug, Clone)]
pub struct Natives {
    pub windows: Option<String>,
    pub macos: Option<String>,
    pub osx: Option<String>,
    pub linux: Option<String>,
}

/// Download information attached to a library entry.
#[derive(Debug, Clone)]
pub struct LibraryDownloads {
    pub artifact: Option<LibraryArtifact>,
    pub classifiers: Option<HashMap<String, DownloadableObject>>,
}

/// One downloadable artifact of a library.
#[derive(Debug, Clone)]
pub struct LibraryArtifact {
    pub path: Option<String>,
    pub sha1: String,
    pub size: usize,
    pub url: String,
}

/// A library the client loads, named by its Maven coordinate.
#[derive(Debug, Clone)]
pub struct Library {
    /// A Maven name for the library, in the form `groupId:artifactId:version`.
    pub name: String,
    /// The URL of the Maven repository (used by Forge).
    pub url: Option<String>,
    /// Native libraries (in C) bundled with this library.
    pub natives: Option<Natives>,
    /// What to exclude from extraction.
    pub extract: Option<HashMap<String, Vec<String>>>,
    /// Rules gating whether the entry applies on the host platform.
    pub rules: Option<Vec<Rule>>,
    pub downloads: Option<LibraryDownloads>,
}

/// A coordinate in the `group:artifact:version` form: splitting on `:`
/// yields at least the three components a path is built from.
pub open spec fn spec_coordinate_wf(name: Seq<char>) -> bool {
    spec_split(name, ':').len() >= 3
}

/// The relative path a coordinate maps to: the group's dot-separated
/// segments become directories, then `artifact/version/artifact-version.jar`.
pub open spec fn spec_lib_rel_path(name: Seq<char>, os: OsKind) -> Seq<char> {
    let parts = spec_split(name, ':');
    let sep = seq![spec_path_separator(os)];
    spec_join(spec_split(parts[0], '.'), spec_path_separator(os)) + sep + parts[1] + sep + parts[2]
        + sep + parts[1] + "-"@ + parts[2] + ".jar"@
}

impl Library {
    /// The path of this library's jar relative to the libraries directory.
    pub fn to_path(&self, os: OsKind) -> (r: String)
        requires
            spec_coordinate_wf(self.name@),
        ensures
            r@ == spec_lib_rel_path(self.name@, os),
    {
        let chars = str_to_chars(self.name.as_str());
        let parts = split_char(&chars, ':');
        let group_segments = split_char(&parts[0], '.');
        proof {
            assert(parts.deep_view()[0] == parts@[0]@);
            assert(parts.deep_view()[1] == parts@[1]@);
            assert(parts.deep_view()[2] == parts@[2]@);
        }
        let mut out = join_with(&group_segments, path_separator(os));
        let ghost sep = seq![spec_path_separator(os)];
        let ghost nparts = spec_split(self.name@, ':');
        let ghost g0 = spec_join(spec_split(nparts[0], '.'), spec_path_separator(os));
        out.push(path_separator(os));
        proof {
            assert(out@ =~= g0 + sep);
        }
        let mut artifact = subrange_chars(&parts[1], 0, parts[1].len());
        out.append(&mut artifact);
        proof {
            assert(out@ =~= g0 + sep + nparts[1]);
        }
        out.push(path_separator(os));
        let mut version = subrange_chars(&parts[2], 0, parts[2].len());
        out.append(&mut version);
        proof {
            assert(out@ =~= g0 + sep + nparts[1] + sep + nparts[2]);
        }
        out.push(path_separator(os));
        let mut artifact2 = subrange_chars(&parts[1], 0, parts[1].len());
        out.append(&mut artifact2);
        proof {
            assert(out@ =~= g0 + sep + nparts[1] + sep + nparts[2] + sep + nparts[1]);
        }
        out.push('-');
        let mut version2 = subrange_chars(&parts[2], 0, parts[2].len());
        out.append(&mut version2);
        proof {
            reveal_strlit("-");
            assert(out@ =~= g0 + sep + nparts[1] + sep + nparts[2] + sep + nparts[1] + "-"@
                + nparts[2]);
        }
        let mut jar = str_to_chars(".jar");
        out.append(&mut jar);
        proof {
            assert(out@ =~= g0 + sep + nparts[1] + sep + nparts[2] + sep + nparts[1] + "-"@
                + nparts[2] + ".jar"@);
            assert(out@ =~= spec_lib_rel_path(self.name@, os));
        }
        chars_to_string(&out)
    }
}

} // verus!
