//! The user-facing launch configuration: window settings, session data,
//! client location, and an optional pre-resolved Java runtime.

use vstd::prelude::*;
use vstd::string::StringExecFns;
use crate::java::Java;
use crate::rules::OsKind;
use crate::util::spec_path_separator;

verus! {

/// Window settings for the game, each field optional.
#[derive(Debug, Clone)]
pub struct WindowConfiguration {
    /// Width of the window.
    pub width: Option<usize>,
    /// Height of the window.
    pub height: Option<usize>,
    /// Whether the window opens in fullscreen mode.
    pub fullscreen: Option<bool>,
}

impl Default for WindowConfiguration {
    /// No size, fullscreen on.
    fn default() -> (r: Self)
        ensures
            r.width is None,
            r.height is None,
            r.fullscreen == Some(true),
    {
        Self { width: None, height: None, fullscreen: Some(true) }
    }
}

/// The account scheme a session belongs to.
#[derive(Debug, Clone, Copy, PartialEq, Eq, Structural)]
pub enum MinecraftSessionUserType {
    Mojang,
    Legacy,
}

impl MinecraftSessionUserType {
    /// What [`MinecraftSessionUserType::to_json_string`] returns: the
    /// type's wire name, in quotes.
    pub open spec fn spec_json_string(self) -> Seq<char> {
        match self {
            MinecraftSessionUserType::Mojang => "\"mojang\""@,
            MinecraftSessionUserType::Legacy => "\"legacy\""@,
        }
    }

    /// Renders the user type as its JSON string value.
    pub fn to_json_string(&self) -> (r: String)
        ensures
            r@ == self.spec_json_string(),
    {
        match self {
            MinecraftSessionUserType::Mojang => "\"mojang\"".to_owned(),
            MinecraftSessionUserType::Legacy => "\"legacy\"".to_owned(),
        }
    }
}

impl Default for MinecraftSessionUserType {
    fn default() -> (r: Self)
        ensures
            r == MinecraftSessionUserType::Mojang,
    {
        Self::Mojang
    }
}

/// Support for an authlib-injector-style authentication server.
#[derive(Debug, Clone)]
pub struct AuthLibConfiguration {
    /// URL of the authentication server.
    pub server: String,
    /// Version of the injector agent, `1.2.5` by default.
    pub version: String,
}

impl Default for AuthLibConfiguration {
    fn default() -> (r: Self)
        ensures
            r.server@ == Seq::<char>::empty(),
            r.version@ == "1.2.5"@,
    {
        Self { server: String::new(), version: "1.2.5".to_owned() }
    }
}

/// The player's session: identity and credentials.
#[derive(Debug, Clone)]
pub struct MinecraftSession {
    /// The player's username.
    pub username: String,
    /// The account scheme, when known.
    pub user_type: Option<MinecraftSessionUserType>,
    /// The player's UUID.
    pub uuid: String,
    /// The session's access token.
    pub access_token: String,
    /// When set, an authlib-injector agent is added to the JVM arguments,
    /// pointing authentication at this server.
    pub authlib_server: Option<AuthLibConfiguration>,
}

impl Default for MinecraftSession {
    fn default() -> (r: Self)
        ensures
            r.username@ == Seq::<char>::empty(),
            r.user_type is None,
            r.uuid@ == Seq::<char>::empty(),
            r.access_token@ == Seq::<char>::empty(),
            r.authlib_server is None,
    {
        Self {
            username: String::new(),
            user_type: None,
            uuid: String::new(),
            access_token: String::new(),
            authlib_server: None,
        }
    }
}

/// Which client to run and where its files live.
#[derive(Debug, Clone)]
pub struct MinecraftClient {
    /// Path of the client folder (the `.minecraft` directory).
    pub path: String,
    /// Folder name of the version to run.
    pub version: String,
    /// Server address the player joins right after start, if any.
    pub server: Option<String>,
}

impl Default for MinecraftClient {
    fn default() -> (r: Self)
        ensures
            r.path@ == Seq::<char>::empty(),
            r.version@ == Seq::<char>::empty(),
            r.server is None,
    {
        Self { path: String::new(), version: String::new(), server: None }
    }
}

impl MinecraftClient {
    /// What [`MinecraftClient::get_client_file`] returns:
    /// `<path>/versions/<version>/client.json`.
    pub open spec fn spec_client_file(self, os: OsKind) -> Seq<char> {
        self.path@ + seq![spec_path_separator(os)] + "versions"@ + seq![
            spec_path_separator(os),
        ] + self.version@ + seq![spec_path_separator(os)] + "client.json"@
    }

    /// The path of the version's `client.json` descriptor.
    pub fn get_client_file(&self, os: OsKind) -> (r: String)
        ensures
            r@ == self.spec_client_file(os),
    {
        let mut out = self.path.clone();
        crate::text::push_char(&mut out, crate::util::path_separator(os));
        out.append("versions");
        crate::text::push_char(&mut out, crate::util::path_separator(os));
        out.append(self.version.as_str());
        crate::text::push_char(&mut out, crate::util::path_separator(os));
        out.append("client.json");
        proof {
            assert(out@ =~= self.spec_client_file(os));
        }
        out
    }
}

/// Everything a launch needs: the client, an optional pre-resolved runtime,
/// the session, and the window settings.
#[derive(Debug, Clone)]
pub struct MinecraftConfiguration {
    /// The client to run.
    pub client: MinecraftClient,
    /// A caller-supplied Java runtime; when absent the caller is expected
    /// to locate one on the machine.
    pub java: Option<Java>,
    /// The player's session.
    pub session: MinecraftSession,
    /// The window settings.
    pub window: WindowConfiguration,
}

} // verus!
