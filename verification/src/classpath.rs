//! Building the classpath: the rule-filtered library paths in manifest
//! order, the client jar always last, joined with the platform's path-list
//! separator.

use vstd::prelude::*;
use crate::client::ClientFile;
use crate::configuration::MinecraftConfiguration;
use crate::library::{spec_coordinate_wf, spec_lib_rel_path, Library};
use crate::rules::{opt_rules_view, rules_pass, spec_rules_pass, OsKind};
use crate::text::{chars_to_string, join_with, spec_join, str_to_chars};
use crate::util::{java_separator, path_separator, spec_java_separator, spec_path_separator};

verus! {

/// The directory libraries are resolved against: `<path>/libraries`.
pub open spec fn spec_libraries_dir(config: MinecraftConfiguration, os: OsKind) -> Seq<char> {
    config.client.path@ + seq![spec_path_separator(os)] + "libraries"@
}

/// The client jar's path: `<path>/versions/<version>/client.jar`.
pub open spec fn spec_client_jar(config: MinecraftConfiguration, os: OsKind) -> Seq<char> {
    config.client.path@ + seq![spec_path_separator(os)] + "versions"@ + seq![
        spec_path_separator(os),
    ] + config.client.version@ + seq![spec_path_separator(os)] + "client.jar"@
}

/// A library entry is fit for classpath building: where its rules pass,
/// its coordinate is well formed.
pub open spec fn spec_lib_ok(lib: Library, os: OsKind) -> bool {
    spec_rules_pass(opt_rules_view(lib.rules), os) ==> spec_coordinate_wf(lib.name@)
}

/// Every entry of the library list is fit for classpath building.
pub open spec fn spec_libs_wf(libs: Seq<Library>, os: OsKind) -> bool {
    forall|i: int| 0 <= i < libs.len() ==> #[trigger] spec_lib_ok(libs[i], os)
}

/// The classpath entries the libraries contribute: for each entry whose
/// rule set passes, its jar path under the libraries directory, in
/// manifest order.
pub open spec fn spec_classpath_entries(
    config: MinecraftConfiguration,
    libs: Seq<Library>,
    os: OsKind,
) -> Seq<Seq<char>>
    decreases libs.len(),
{
    if libs.len() == 0 {
        Seq::empty()
    } else {
        let prefix = spec_classpath_entries(config, libs.drop_last(), os);
        let lib = libs.last();
        if spec_rules_pass(opt_rules_view(lib.rules), os) {
            prefix.push(
                spec_libraries_dir(config, os) + seq![spec_path_separator(os)] + spec_lib_rel_path(
                    lib.name@,
                    os,
                ),
            )
        } else {
            prefix
        }
    }
}

/// The whole classpath: the libraries' entries with the client jar
/// appended last, joined with the platform's path-list separator.
pub open spec fn spec_classpath(
    config: MinecraftConfiguration,
    libs: Seq<Library>,
    os: OsKind,
) -> Seq<char> {
    spec_join(
        spec_classpath_entries(config, libs, os).push(spec_client_jar(config, os)),
        spec_java_separator(os),
    )
}

/// Builds the classpath string for a launch.
pub struct ClassPathCollector;

impl ClassPathCollector {
    /// Iterates the manifest's libraries in order, skips entries whose
    /// rule set fails on `os`, resolves the rest under
    /// `<path>/libraries`, appends the client jar last, and joins
    /// everything with the platform's path-list separator.
    pub fn collect(config: &MinecraftConfiguration, client_file: &ClientFile, os: OsKind) -> (r:
        String)
        requires
            spec_libs_wf(client_file.libraries@, os),
        ensures
            r@ == spec_classpath(*config, client_file.libraries@, os),
    {
        let mut entries: Vec<Vec<char>> = Vec::new();
        let libs = &client_file.libraries;
        let mut i: usize = 0;
        proof {
            assert(entries.deep_view() =~~= spec_classpath_entries(
                *config,
                libs@.take(0),
                os,
            ));
        }
        while i < libs.len()
            invariant
                i <= libs.len(),
                spec_libs_wf(client_file.libraries@, os),
                libs@ == client_file.libraries@,
                entries.deep_view() == spec_classpath_entries(*config, libs@.take(i as int), os),
            decreases libs.len() - i,
        {
            proof {
                assert(libs@.take(i + 1).drop_last() =~= libs@.take(i as int));
                assert(libs@.take(i + 1).last() == libs@[i as int]);
                assert(spec_lib_ok(libs@[i as int], os));
            }
            if rules_pass(&libs[i].rules, os) {
                let rel = libs[i].to_path(os);
                let mut entry = str_to_chars(config.client.path.as_str());
                entry.push(path_separator(os));
                let mut libdir = str_to_chars("libraries");
                entry.append(&mut libdir);
                entry.push(path_separator(os));
                let mut rel_chars = str_to_chars(rel.as_str());
                entry.append(&mut rel_chars);
                let ghost pre = entries.deep_view();
                entries.push(entry);
                proof {
                    assert(entry@ =~= spec_libraries_dir(*config, os) + seq![
                        spec_path_separator(os),
                    ] + spec_lib_rel_path(libs@[i as int].name@, os));
                    assert(entries.deep_view() =~~= pre.push(entry@));
                    assert(entries.deep_view() =~~= spec_classpath_entries(
                        *config,
                        libs@.take(i + 1),
                        os,
                    ));
                }
            }
            i += 1;
        }
        proof {
            assert(libs@.take(libs@.len() as int) =~= libs@);
        }
        let mut jar = str_to_chars(config.client.path.as_str());
        jar.push(path_separator(os));
        let mut versions = str_to_chars("versions");
        jar.append(&mut versions);
        jar.push(path_separator(os));
        let mut version = str_to_chars(config.client.version.as_str());
        jar.append(&mut version);
        jar.push(path_separator(os));
        let mut jarname = str_to_chars("client.jar");
        jar.append(&mut jarname);
        proof {
            assert(jar@ =~= spec_client_jar(*config, os));
        }
        let ghost pre = entries.deep_view();
        entries.push(jar);
        proof {
            assert(entries.deep_view() =~~= pre.push(spec_client_jar(*config, os)));
        }
        let joined = join_with(&entries, java_separator(os));
        chars_to_string(&joined)
    }
}


/// Joining a part list that ends in `last` yields `last` alone for a
/// one-part list, and otherwise the joined front, the separator, `last`.
proof fn lemma_join_push(parts: Seq<Seq<char>>, last: Seq<char>, sep: char)
    ensures
        parts.len() == 0 ==> spec_join(parts.push(last), sep) == last,
        parts.len() > 0 ==> spec_join(parts.push(last), sep) == spec_join(parts, sep) + seq![
            sep,
        ] + last,
{
    assert(parts.push(last).drop_last() =~~= parts);
    assert(parts.push(last).last() == last);
    if parts.len() == 0 {
        assert(spec_join(parts.push(last), sep) == parts.push(last)[0]);
    }
}

/// The classpath always ends with the client jar path, whatever the
/// library list holds — including no libraries at all.
pub proof fn lemma_classpath_ends_with_client_jar(
    config: MinecraftConfiguration,
    libs: Seq<Library>,
    os: OsKind,
)
    ensures
        ({
            let cp = spec_classpath(config, libs, os);
            let jar = spec_client_jar(config, os);
            cp.len() >= jar.len() && cp.skip(cp.len() - jar.len()) == jar
        }),
{
    let entries = spec_classpath_entries(config, libs, os);
    let jar = spec_client_jar(config, os);
    let sep = spec_java_separator(os);
    lemma_join_push(entries, jar, sep);
    let cp = spec_classpath(config, libs, os);
    if entries.len() == 0 {
        assert(cp == jar);
        assert(cp.skip(0) =~= cp);
    } else {
        let front = spec_join(entries, sep) + seq![sep];
        assert(cp == front + jar);
        assert((front + jar).skip(front.len() as int) =~= jar);
    }
}

} // verus!
