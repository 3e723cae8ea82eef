use mclauncher::argument::{Argument, ArgumentValue, Arguments};
use mclauncher::assetindex::AssetIndex;
use mclauncher::classpath::ClassPathCollector;
use mclauncher::client::ClientFile;
use mclauncher::configuration::{
    AuthLibConfiguration, MinecraftClient, MinecraftConfiguration, MinecraftSession,
    WindowConfiguration,
};
use mclauncher::datamap::{generate_data_map, DataMap};
use mclauncher::downloads::Downloads;
use mclauncher::error::{JavaError, JavaErrorKind};
use mclauncher::java::Java;
use mclauncher::javaversion::ClientJavaVersion;
use mclauncher::launcher::MinecraftLauncher;
use mclauncher::library::Library;
use mclauncher::rules::{OsKind, OsSpecifier, Rule, RuleAction};
use mclauncher::version::JavaVersion;

const PROBE_8: &str = "java version \"1.8.0_292\"\nJava(TM) SE Runtime Environment\n";
const PROBE_17: &str = "openjdk version \"17.0.1\" 2021-10-19\n";

fn config_with(path: &str, version: &str) -> MinecraftConfiguration {
    MinecraftConfiguration {
        client: MinecraftClient {
            path: path.to_string(),
            version: version.to_string(),
            server: None,
        },
        java: None,
        session: MinecraftSession {
            username: "player".to_string(),
            user_type: None,
            uuid: "uuid-1".to_string(),
            access_token: "token-1".to_string(),
            authlib_server: None,
        },
        window: WindowConfiguration { width: None, height: None, fullscreen: None },
    }
}

fn library(name: &str, rules: Option<Vec<Rule>>) -> Library {
    Library {
        name: name.to_string(),
        url: None,
        natives: None,
        extract: None,
        rules,
        downloads: None,
    }
}

fn client_file(jvm: Vec<Argument>, game: Vec<Argument>, libraries: Vec<Library>) -> ClientFile {
    ClientFile {
        arguments: Arguments { jvm, game },
        asset_index: AssetIndex {
            id: "3".to_string(),
            sha1: String::new(),
            size: 0,
            total_size: 0,
            known: None,
            url: String::new(),
        },
        assets: "3".to_string(),
        compliance_level: Some(1),
        downloads: Downloads {
            client: None,
            client_mappings: None,
            server: None,
            server_mappings: None,
        },
        id: "1.12.2".to_string(),
        java_version: ClientJavaVersion { component: "jre-legacy".to_string(), major_version: 8 },
        libraries,
        main_class: "net.minecraft.client.main.Main".to_string(),
        minimum_launcher_version: 21,
        release_time: String::new(),
        time: String::new(),
        kind: "release".to_string(),
    }
}

fn string_arg(s: &str) -> Argument {
    Argument { value: ArgumentValue::String(s.to_string()), rules: None }
}

#[test]
fn version_parses_legacy_scheme() {
    let v = JavaVersion::from_probe_output(PROBE_8).unwrap();
    assert_eq!(v.major, 1);
    assert_eq!(v.minor, 8);
    assert_eq!(v.security, 0);
    assert_eq!(v.main_version(), 8);
}

#[test]
fn version_parses_modern_scheme() {
    let v = JavaVersion::from_probe_output(PROBE_17).unwrap();
    assert_eq!(v.major, 17);
    assert_eq!(v.minor, 0);
    assert_eq!(v.security, 1);
    assert_eq!(v.main_version(), 17);
}

#[test]
fn version_parse_fails_without_quoted_token() {
    let err = JavaVersion::from_probe_output("openjdk version 17.0.1\n").unwrap_err();
    assert!(matches!(err.kind(), JavaErrorKind::OutputReadError));
    assert_eq!(err.details(), Some("Unable to get Java's version"));
}

#[test]
fn version_parse_fails_on_empty_output() {
    let err = JavaVersion::from_probe_output("").unwrap_err();
    assert!(matches!(err.kind(), JavaErrorKind::OutputReadError));
    assert_eq!(err.details(), Some("No client line"));
}

#[test]
fn version_parse_fails_with_missing_components() {
    let err = JavaVersion::from_probe_output("java version \"1.8\"\n").unwrap_err();
    assert!(matches!(err.kind(), JavaErrorKind::OutputReadError));
    assert_eq!(err.details(), None);
}

#[test]
fn version_check_is_strict_equality() {
    let java = Java::new("/jdk8".to_string(), true, PROBE_8).unwrap();
    assert!(java.is_version_equal(8).is_ok());
    let err = java.is_version_equal(11).unwrap_err();
    assert!(matches!(err.kind(), JavaErrorKind::DifferentVersion));

    let java17 = Java::new("/jdk17".to_string(), true, PROBE_17).unwrap();
    let err = java17.is_version_equal(8).unwrap_err();
    assert!(matches!(err.kind(), JavaErrorKind::DifferentVersion));
    assert!(java17.is_version_at_least(17).is_ok());
    // Faithfully strict: a newer runtime does not satisfy "at least".
    assert!(java17.is_version_at_least(8).is_err());
}

#[test]
fn java_requires_a_directory() {
    let err = Java::new("/nowhere".to_string(), false, PROBE_8).unwrap_err();
    assert!(matches!(err.kind(), JavaErrorKind::NotFound));
}

#[test]
fn java_executable_paths() {
    let java = Java::new("/jdk8".to_string(), true, PROBE_8).unwrap();
    assert_eq!(java.get_java(OsKind::Linux, true).unwrap(), "/jdk8/bin/java");
    assert_eq!(java.get_javaw(OsKind::Linux, true).unwrap(), "/jdk8/bin/java");
    assert_eq!(java.get_javaw(OsKind::Windows, true).unwrap(), "/jdk8\\bin\\javaw.exe");
    let err = java.get_java(OsKind::Linux, false).unwrap_err();
    assert!(matches!(err.kind(), JavaErrorKind::NotFound));
}

#[test]
fn java_base_dir_requires_bin_parent() {
    let base = Java::base_dir_from_executable("/opt/jdk/bin/java", OsKind::Linux).unwrap();
    assert_eq!(base, "/opt/jdk");
    let err = Java::base_dir_from_executable("/usr/local/java", OsKind::Linux).unwrap_err();
    assert!(matches!(err.kind(), JavaErrorKind::InvalidJavaFolderStructure));
}

#[test]
fn java_error_accessors() {
    let plain = JavaError::new(JavaErrorKind::NotFound);
    assert!(matches!(plain.kind(), JavaErrorKind::NotFound));
    assert_eq!(plain.details(), None);
    assert_eq!(plain.message(), "NotFound");

    let detailed = JavaError::new_with_details(JavaErrorKind::OutputReadError, "boom".to_string());
    assert!(matches!(detailed.kind(), JavaErrorKind::OutputReadError));
    assert_eq!(detailed.details(), Some("boom"));
    assert_eq!(detailed.message(), "OutputReadError: boom");
}

#[test]
fn coordinate_maps_to_jar_path() {
    let lib = library("com.example:lib:1.0", None);
    assert_eq!(lib.to_path(OsKind::Linux), "com/example/lib/1.0/lib-1.0.jar");
    assert_eq!(lib.to_path(OsKind::Windows), "com\\example\\lib\\1.0\\lib-1.0.jar");
}

#[test]
fn classpath_with_zero_libraries_is_just_the_client_jar() {
    let config = config_with("/mc", "1.12.2");
    let cf = client_file(vec![], vec![], vec![]);
    let cp = ClassPathCollector::collect(&config, &cf, OsKind::Linux);
    assert_eq!(cp, "/mc/versions/1.12.2/client.jar");
}

#[test]
fn classpath_ends_with_client_jar_and_keeps_order() {
    let config = config_with("/mc", "1.12.2");
    let windows_only = Some(vec![Rule {
        action: RuleAction::Allow,
        os: Some(OsSpecifier { name: Some(OsKind::Windows) }),
        features: None,
    }]);
    let cf = client_file(
        vec![],
        vec![],
        vec![
            library("com.example:alpha:1.0", None),
            library("com.example:skipped:2.0", windows_only),
            library("org.demo:beta:0.3", None),
        ],
    );
    let cp = ClassPathCollector::collect(&config, &cf, OsKind::Linux);
    let expected = [
        "/mc/libraries/com/example/alpha/1.0/alpha-1.0.jar",
        "/mc/libraries/org/demo/beta/0.3/beta-0.3.jar",
        "/mc/versions/1.12.2/client.jar",
    ]
    .join(":");
    assert_eq!(cp, expected);
    assert!(cp.ends_with("/mc/versions/1.12.2/client.jar"));
}

#[test]
fn data_map_holds_session_and_paths() {
    let mut config = config_with("/mc", "1.12.2");
    config.window.width = Some(800);
    let cf = client_file(vec![], vec![], vec![]);
    let map = generate_data_map(&config, &cf, "cp".to_string(), OsKind::Linux);
    assert_eq!(map.get(&"username".to_string()), Some(&"player".to_string()));
    assert_eq!(map.get(&"user_type".to_string()), Some(&"\"mojang\"".to_string()));
    assert_eq!(map.get(&"libraries_dir".to_string()), Some(&"/mc/libraries".to_string()));
    assert_eq!(
        map.get(&"natives_dir".to_string()),
        Some(&"/mc/versions/1.12.2/natives".to_string())
    );
    assert_eq!(
        map.get(&"version_jar".to_string()),
        Some(&"/mc/versions/1.12.2/client.jar".to_string())
    );
    assert_eq!(map.get(&"class_path".to_string()), Some(&"cp".to_string()));
    assert_eq!(map.get(&"width".to_string()), Some(&"800".to_string()));
    assert_eq!(map.get(&"height".to_string()), None);
    assert_eq!(map.get(&"server_ip".to_string()), None);
    assert_eq!(map.get(&"authlib_server".to_string()), None);
}

#[test]
fn data_map_insert_overrides() {
    let mut map = DataMap::new();
    map.insert("k".to_string(), "1".to_string());
    map.insert("k".to_string(), "2".to_string());
    assert_eq!(map.get(&"k".to_string()), Some(&"2".to_string()));
    assert_eq!(map.get(&"absent".to_string()), None);
}

#[test]
fn client_file_path_is_under_versions() {
    let config = config_with("/mc", "Forge 1.12.2");
    assert_eq!(
        config.client.get_client_file(OsKind::Linux),
        "/mc/versions/Forge 1.12.2/client.json"
    );
}

#[test]
fn end_to_end_launch_plan() {
    let mut config = config_with("/mc", "1.12.2");
    config.session.authlib_server = Some(AuthLibConfiguration {
        server: "https://auth.example/api".to_string(),
        version: "1.2.5".to_string(),
    });
    config.window.width = Some(1024);
    let cf = client_file(
        vec![string_arg("-Xmx2G")],
        vec![string_arg("--username; ${username}")],
        vec![],
    );
    let java = Java::new("/jdk8".to_string(), true, PROBE_8).unwrap();
    let launcher = MinecraftLauncher::new(config);
    let plan = launcher.prepare(&cf, &java, OsKind::Linux);

    assert_eq!(plan.executable, "/jdk8/bin/java");
    assert_eq!(
        plan.arguments,
        vec![
            "-javaagent:/mc/libraries/moe/yushi/authlibinjector/1.2.5/authlibinjector-1.2.5.jar=https://auth.example/api"
                .to_string(),
            "-Xmx2G".to_string(),
            "--username".to_string(),
            "player".to_string(),
            "--width".to_string(),
            "1024".to_string(),
        ]
    );
    assert!(plan.arguments.iter().all(|a| !a.is_empty()));
}

#[test]
fn version_parse_strips_carriage_return() {
    let v = JavaVersion::from_probe_output("java version \"11.0.2\"\r\nmore\r\n").unwrap();
    assert_eq!(v.major, 11);
    assert_eq!(v.minor, 0);
    assert_eq!(v.security, 2);
}

#[test]
fn version_parse_reads_only_the_first_line() {
    let err =
        JavaVersion::from_probe_output("no token here\njava version \"1.8.0\"\n").unwrap_err();
    assert!(matches!(err.kind(), JavaErrorKind::OutputReadError));
    assert_eq!(err.details(), Some("Unable to get Java's version"));
}
