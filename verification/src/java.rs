//! A located Java installation: its base directory, its executables, and
//! version checks against a required main version.
//!
//! Filesystem probes (whether a path is a directory or a file) and process
//! spawning are the caller's concern; their results are handed in as plain
//! values and every decision made from them is verified.

use vstd::prelude::*;
use crate::error::{JavaError, JavaErrorKind};
use crate::rules::OsKind;
use crate::text::{chars_to_string, join_with, split_char, str_to_chars, spec_join, spec_split};
use crate::util::{choice_by_os, path_separator, spec_path_separator};
use crate::version::{spec_version_from_output, JavaVersion};

verus! {

/// A Java installation rooted at a base directory, with its version probed
/// once at construction.
#[derive(Debug, Clone)]
pub struct Java {
    base_path: String,
    version: JavaVersion,
}

/// The path of the executable called `name` in the `bin` directory under
/// `base`.
pub open spec fn spec_executable_path(base: Seq<char>, name: Seq<char>, os: OsKind) -> Seq<char> {
    base + seq![spec_path_separator(os)] + "bin"@ + seq![spec_path_separator(os)] + name
}

/// The console executable's name on the platform.
pub open spec fn spec_java_name(os: OsKind) -> Seq<char> {
    if os == OsKind::Windows {
        "java.exe"@
    } else {
        "java"@
    }
}

/// The windowed executable's name on the platform. Only Windows has a
/// separate `javaw`; elsewhere it is plain `java`.
pub open spec fn spec_javaw_name(os: OsKind) -> Seq<char> {
    if os == OsKind::Windows {
        "javaw.exe"@
    } else {
        "java"@
    }
}

impl Java {
    /// The base directory, as a character sequence.
    pub closed spec fn spec_base_path(self) -> Seq<char> {
        self.base_path@
    }

    /// The version the handle carries.
    pub closed spec fn spec_version(self) -> JavaVersion {
        self.version
    }

    /// Builds the handle for the installation at `base_path`.
    ///
    /// `is_directory` is the caller's probe of whether `base_path` is a
    /// directory, and `probe_output` the diagnostic output of running the
    /// installation's `java -version`. Fails with `NotFound` when the base
    /// is no directory, and with the version parser's error when the probe
    /// output does not parse.
    pub fn new(base_path: String, is_directory: bool, probe_output: &str) -> (r: Result<
        Java,
        JavaError,
    >)
        ensures
            !is_directory ==> (r matches Err(e) && e.0 == JavaErrorKind::NotFound),
            is_directory ==> match r {
                Ok(j) => spec_version_from_output(probe_output@) == Some(j.spec_version())
                    && j.spec_base_path() == base_path@,
                Err(e) => spec_version_from_output(probe_output@) is None && e.0
                    == JavaErrorKind::OutputReadError,
            },
    {
        if !is_directory {
            return Err(JavaError::new(JavaErrorKind::NotFound));
        }
        let version = match JavaVersion::from_probe_output(probe_output) {
            Ok(v) => v,
            Err(e) => {
                return Err(e);
            },
        };
        Ok(Java { base_path, version })
    }

    /// The base directory the handle was built from.
    pub fn base_path(&self) -> (r: &String)
        ensures
            r@ == self.spec_base_path(),
    {
        &self.base_path
    }

    /// The path of the executable called `name` under this installation's
    /// `bin` directory.
    fn executable_path(&self, name: &str, os: OsKind) -> (r: String)
        ensures
            r@ == spec_executable_path(self.spec_base_path(), name@, os),
    {
        let mut v = str_to_chars(self.base_path.as_str());
        v.push(path_separator(os));
        let mut bin = str_to_chars("bin");
        v.append(&mut bin);
        v.push(path_separator(os));
        let mut n = str_to_chars(name);
        v.append(&mut n);
        proof {
            assert(v@ =~= spec_executable_path(self.spec_base_path(), name@, os));
        }
        chars_to_string(&v)
    }

    /// The path of the console `java` executable, `<base>/bin/java` (with
    /// `.exe` on Windows). `is_file` is the caller's probe of that path;
    /// where it is absent the lookup fails with `NotFound`.
    pub fn get_java(&self, os: OsKind, is_file: bool) -> (r: Result<String, JavaError>)
        ensures
            is_file ==> (r matches Ok(p) && p@ == spec_executable_path(
                self.spec_base_path(),
                spec_java_name(os),
                os,
            )),
            !is_file ==> (r matches Err(e) && e.0 == JavaErrorKind::NotFound),
    {
        let path = self.executable_path(choice_by_os(os, "java", "java.exe"), os);
        if !is_file {
            return Err(JavaError::new(JavaErrorKind::NotFound));
        }
        Ok(path)
    }

    /// The path of the windowed executable: `javaw.exe` on Windows, plain
    /// `java` elsewhere. `is_file` is the caller's probe of that path;
    /// where it is absent the lookup fails with `NotFound`.
    pub fn get_javaw(&self, os: OsKind, is_file: bool) -> (r: Result<String, JavaError>)
        ensures
            is_file ==> (r matches Ok(p) && p@ == spec_executable_path(
                self.spec_base_path(),
                spec_javaw_name(os),
                os,
            )),
            !is_file ==> (r matches Err(e) && e.0 == JavaErrorKind::NotFound),
    {
        let path = self.executable_path(choice_by_os(os, "java", "javaw.exe"), os);
        if !is_file {
            return Err(JavaError::new(JavaErrorKind::NotFound));
        }
        Ok(path)
    }

    /// The path the windowed executable would have, without any filesystem
    /// check; the launch plan carries this path.
    pub fn javaw_path(&self, os: OsKind) -> (r: String)
        ensures
            r@ == spec_executable_path(self.spec_base_path(), spec_javaw_name(os), os),
    {
        self.executable_path(choice_by_os(os, "java", "javaw.exe"), os)
    }

    /// The version the installation reported when the handle was built.
    pub fn version(&self) -> (r: &JavaVersion)
        ensures
            r == self.spec_version(),
    {
        &self.version
    }

    /// Checks that the runtime's main version is exactly `needed_version`;
    /// fails with `DifferentVersion` otherwise.
    pub fn is_version_equal(&self, needed_version: u8) -> (r: Result<(), JavaError>)
        ensures
            self.spec_version().spec_main_version() == needed_version <==> r is Ok,
            r matches Err(e) ==> e.0 == JavaErrorKind::DifferentVersion,
    {
        if self.version.main_version() != needed_version {
            return Err(JavaError::new(JavaErrorKind::DifferentVersion));
        }
        Ok(())
    }

    /// Checks the runtime against a minimum main version.
    ///
    /// Deliberately kept identical to [`Java::is_version_equal`] — a strict
    /// equality test — for behavioural parity with existing callers, even
    /// though the name suggests an ordering comparison.
    pub fn is_version_at_least(&self, needed_version: u8) -> (r: Result<(), JavaError>)
        ensures
            self.spec_version().spec_main_version() == needed_version <==> r is Ok,
            r matches Err(e) ==> e.0 == JavaErrorKind::DifferentVersion,
    {
        if self.version.main_version() != needed_version {
            return Err(JavaError::new(JavaErrorKind::DifferentVersion));
        }
        Ok(())
    }

    /// The base directory of the installation owning the executable at
    /// `path`: the executable's parent directory must be named exactly
    /// `bin`, and the grandparent is the base. Fails with
    /// `InvalidJavaFolderStructure` otherwise.
    pub fn base_dir_from_executable(path: &str, os: OsKind) -> (r: Result<String, JavaError>)
        ensures
            ({
                let parts = spec_split(path@, spec_path_separator(os));
                if parts.len() >= 2 && parts[parts.len() - 2] == "bin"@ {
                    r matches Ok(base) && base@ == spec_join(
                        parts.take(parts.len() - 2),
                        spec_path_separator(os),
                    )
                } else {
                    r matches Err(e) && e.0 == JavaErrorKind::InvalidJavaFolderStructure
                }
            }),
    {
        let chars = str_to_chars(path);
        let mut parts = split_char(&chars, path_separator(os));
        if parts.len() < 2 {
            return Err(JavaError::new(JavaErrorKind::InvalidJavaFolderStructure));
        }
        let parent = chars_to_string(&parts[parts.len() - 2]);
        let bin = "bin".to_owned();
        if !(parent == bin) {
            proof {
                assert(parts.deep_view()[parts@.len() - 2] == parts@[parts@.len() - 2]@);
            }
            return Err(JavaError::new(JavaErrorKind::InvalidJavaFolderStructure));
        }
        proof {
            assert(parts.deep_view()[parts@.len() - 2] == parts@[parts@.len() - 2]@);
        }
        let new_len = parts.len() - 2;
        parts.truncate(new_len);
        proof {
            assert(parts.deep_view() =~~= spec_split(path@, spec_path_separator(os)).take(
                new_len as int,
            ));
        }
        let base = join_with(&parts, path_separator(os));
        Ok(chars_to_string(&base))
    }
}

} // verus!
