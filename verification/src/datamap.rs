//! The key/value map placeholders are resolved against, and its
//! construction from configuration, manifest and classpath.

use vstd::prelude::*;
use vstd::string::StringExecFns;
use crate::client::ClientFile;
use crate::configuration::{MinecraftConfiguration, MinecraftSessionUserType};
use crate::rules::OsKind;
use crate::text::{chars_to_string, push_char, spec_dec, u64_to_dec_chars};
use crate::util::{path_separator, spec_path_separator};

verus! {

/// The mapping a sequence of key/value entries denotes, later entries
/// overriding earlier ones.
pub open spec fn spec_map_of(entries: Seq<(String, String)>) -> Map<Seq<char>, Seq<char>>
    decreases entries.len(),
{
    if entries.len() == 0 {
        Map::empty()
    } else {
        spec_map_of(entries.drop_last()).insert(entries.last().0@, entries.last().1@)
    }
}

/// An immutable mapping from placeholder key to its replacement value,
/// seen in contracts as a `Map<Seq<char>, Seq<char>>`.
#[derive(Debug, Clone)]
pub struct DataMap {
    entries: Vec<(String, String)>,
}

impl View for DataMap {
    type V = Map<Seq<char>, Seq<char>>;

    closed spec fn view(&self) -> Map<Seq<char>, Seq<char>> {
        spec_map_of(self.entries@)
    }
}

impl DataMap {
    /// An empty map.
    pub fn new() -> (r: DataMap)
        ensures
            r@ == Map::<Seq<char>, Seq<char>>::empty(),
    {
        DataMap { entries: Vec::new() }
    }

    /// Binds `key` to `value`, replacing any earlier binding.
    pub fn insert(&mut self, key: String, value: String)
        ensures
            final(self)@ == old(self)@.insert(key@, value@),
    {
        let ghost old_entries = self.entries@;
        self.entries.push((key, value));
        proof {
            assert(self.entries@.drop_last() =~= old_entries);
        }
    }

    /// Looks `key` up.
    pub fn get(&self, key: &String) -> (r: Option<&String>)
        ensures
            r matches Some(v) ==> self@.contains_key(key@) && v@ == self@[key@],
            r is None ==> !self@.contains_key(key@),
    {
        let mut i = self.entries.len();
        proof {
            assert(self.entries@.take(self.entries@.len() as int) =~= self.entries@);
        }
        while i > 0
            invariant
                i <= self.entries.len(),
                self@.contains_key(key@) == spec_map_of(self.entries@.take(i as int)).contains_key(
                    key@,
                ),
                self@.contains_key(key@) ==> self@[key@] == spec_map_of(
                    self.entries@.take(i as int),
                )[key@],
            decreases i,
        {
            i -= 1;
            proof {
                assert(self.entries@.take(i + 1).drop_last() =~= self.entries@.take(i as int));
                assert(self.entries@.take(i + 1).last() == self.entries@[i as int]);
            }
            if self.entries[i].0 == *key {
                return Some(&self.entries[i].1);
            }
        }
        None
    }
}

/// `<base><sep><a>` with the platform's path separator.
fn joined2(base: &str, a: &str, os: OsKind) -> (r: String)
    ensures
        r@ == base@ + seq![spec_path_separator(os)] + a@,
{
    let mut out = base.to_owned();
    push_char(&mut out, path_separator(os));
    out.append(a);
    proof {
        assert(out@ =~= base@ + seq![spec_path_separator(os)] + a@);
    }
    out
}

/// `<base><sep><a><sep><b><sep><c>` with the platform's path separator.
fn joined4(base: &str, a: &str, b: &str, c: &str, os: OsKind) -> (r: String)
    ensures
        r@ == base@ + seq![spec_path_separator(os)] + a@ + seq![spec_path_separator(os)] + b@
            + seq![spec_path_separator(os)] + c@,
{
    let mut out = base.to_owned();
    push_char(&mut out, path_separator(os));
    out.append(a);
    push_char(&mut out, path_separator(os));
    out.append(b);
    push_char(&mut out, path_separator(os));
    out.append(c);
    proof {
        assert(out@ =~= base@ + seq![spec_path_separator(os)] + a@ + seq![
            spec_path_separator(os),
        ] + b@ + seq![spec_path_separator(os)] + c@);
    }
    out
}

/// The map a launch resolves placeholders against: session identity, fixed
/// launcher identification, the client's directories, the classpath, the
/// manifest's names, and — only when configured — the server address, the
/// window size, and the authlib server.
pub open spec fn spec_data_map(
    config: MinecraftConfiguration,
    client: ClientFile,
    class_path: Seq<char>,
    os: OsKind,
) -> Map<Seq<char>, Seq<char>> {
    let path = config.client.path@;
    let sep = seq![spec_path_separator(os)];
    let base = Map::<Seq<char>, Seq<char>>::empty().insert(
        "username"@,
        config.session.username@,
    ).insert("uuid"@, config.session.uuid@).insert(
        "access_token"@,
        config.session.access_token@,
    ).insert(
        "user_type"@,
        (match config.session.user_type {
            Some(t) => t,
            None => MinecraftSessionUserType::Mojang,
        }).spec_json_string(),
    ).insert("launcher_name"@, "java-minecraft-launcher"@).insert(
        "launcher_version"@,
        "1.6.84-j"@,
    ).insert("libraries_dir"@, path + sep + "libraries"@).insert(
        "natives_dir"@,
        path + sep + "versions"@ + sep + config.client.version@ + sep + "natives"@,
    ).insert("game_dir"@, path).insert("assets_dir"@, path + sep + "assets"@).insert(
        "class_path"@,
        class_path,
    ).insert("main_class"@, client.main_class@).insert("version_name"@, client.id@).insert(
        "version_type"@,
        client.kind@,
    ).insert("assets_index"@, client.assets@).insert(
        "version_jar"@,
        path + sep + "versions"@ + sep + config.client.version@ + sep + "client.jar"@,
    );
    let with_server = match config.client.server {
        Some(ip) => base.insert("server_ip"@, ip@),
        None => base,
    };
    let with_width = match config.window.width {
        Some(w) => with_server.insert("width"@, spec_dec(w as nat)),
        None => with_server,
    };
    let with_height = match config.window.height {
        Some(h) => with_width.insert("height"@, spec_dec(h as nat)),
        None => with_width,
    };
    match config.session.authlib_server {
        Some(al) => with_height.insert("authlib_server"@, al.server@),
        None => with_height,
    }
}

/// Builds the placeholder map for one launch from the configuration, the
/// decoded manifest, and the already-computed classpath.
pub fn generate_data_map(
    config: &MinecraftConfiguration,
    client_file: &ClientFile,
    class_path: String,
    os: OsKind,
) -> (r: DataMap)
    ensures
        r@ == spec_data_map(*config, *client_file, class_path@, os),
{
    let path = config.client.path.as_str();
    let user_type = match config.session.user_type {
        Some(t) => t,
        None => MinecraftSessionUserType::default(),
    };
    let mut map = DataMap::new();
    map.insert("username".to_owned(), config.session.username.clone());
    map.insert("uuid".to_owned(), config.session.uuid.clone());
    map.insert("access_token".to_owned(), config.session.access_token.clone());
    map.insert("user_type".to_owned(), user_type.to_json_string());
    map.insert("launcher_name".to_owned(), "java-minecraft-launcher".to_owned());
    map.insert("launcher_version".to_owned(), "1.6.84-j".to_owned());
    map.insert("libraries_dir".to_owned(), joined2(path, "libraries", os));
    map.insert(
        "natives_dir".to_owned(),
        joined4(path, "versions", config.client.version.as_str(), "natives", os),
    );
    map.insert("game_dir".to_owned(), config.client.path.clone());
    map.insert("assets_dir".to_owned(), joined2(path, "assets", os));
    map.insert("class_path".to_owned(), class_path);
    map.insert("main_class".to_owned(), client_file.main_class.clone());
    map.insert("version_name".to_owned(), client_file.id.clone());
    map.insert("version_type".to_owned(), client_file.kind.clone());
    map.insert("assets_index".to_owned(), client_file.assets.clone());
    map.insert(
        "version_jar".to_owned(),
        joined4(path, "versions", config.client.version.as_str(), "client.jar", os),
    );
    match &config.client.server {
        Some(ip) => {
            map.insert("server_ip".to_owned(), ip.clone());
        },
        None => {},
    }
    match config.window.width {
        Some(w) => {
            map.insert("width".to_owned(), chars_to_string(&u64_to_dec_chars(w as u64)));
        },
        None => {},
    }
    match config.window.height {
        Some(h) => {
            map.insert("height".to_owned(), chars_to_string(&u64_to_dec_chars(h as u64)));
        },
        None => {},
    }
    match &config.session.authlib_server {
        Some(al) => {
            map.insert("authlib_server".to_owned(), al.server.clone());
        },
        None => {},
    }
    map
}

} // verus!
