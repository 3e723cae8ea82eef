use mclauncher::argument::{collect_arguments, Argument, ArgumentValue, Arguments};
use mclauncher::configuration::{
    AuthLibConfiguration, MinecraftClient, MinecraftConfiguration, MinecraftSession,
    MinecraftSessionUserType, WindowConfiguration,
};
use mclauncher::datamap::DataMap;
use mclauncher::rules::{OsKind, OsSpecifier, Rule, RuleAction, RuleFeatures};

fn plain_config() -> MinecraftConfiguration {
    MinecraftConfiguration {
        client: MinecraftClient {
            path: "/mc".to_string(),
            version: "1.0".to_string(),
            server: None,
        },
        java: None,
        session: MinecraftSession {
            username: "player".to_string(),
            user_type: None,
            uuid: "uuid-1".to_string(),
            access_token: "token-1".to_string(),
            authlib_server: None,
        },
        window: WindowConfiguration { width: None, height: None, fullscreen: None },
    }
}

fn string_arg(s: &str) -> Argument {
    Argument { value: ArgumentValue::String(s.to_string()), rules: None }
}

#[test]
fn rule_no_condition_always_passes() {
    let rule = Rule {
        action: RuleAction::Disallow,
        os: None,
        features: Some(RuleFeatures { is_demo_user: Some(true), has_custom_resolution: None }),
    };
    assert!(rule.is_followed(OsKind::Windows));
    assert!(rule.is_followed(OsKind::MacOS));
    assert!(rule.is_followed(OsKind::Linux));

    let no_name = Rule {
        action: RuleAction::Allow,
        os: Some(OsSpecifier { name: None }),
        features: None,
    };
    assert!(no_name.is_followed(OsKind::Linux));
}

#[test]
fn rule_allow_passes_only_on_named_platform() {
    let rule = Rule {
        action: RuleAction::Allow,
        os: Some(OsSpecifier { name: Some(OsKind::Windows) }),
        features: None,
    };
    assert!(rule.is_followed(OsKind::Windows));
    assert!(!rule.is_followed(OsKind::Linux));
    assert!(!rule.is_followed(OsKind::MacOS));
}

#[test]
fn rule_disallow_passes_everywhere_else() {
    let rule = Rule {
        action: RuleAction::Disallow,
        os: Some(OsSpecifier { name: Some(OsKind::Windows) }),
        features: None,
    };
    assert!(!rule.is_followed(OsKind::Windows));
    assert!(rule.is_followed(OsKind::Linux));
    assert!(rule.is_followed(OsKind::MacOS));
}

#[test]
fn failing_template_flattens_to_nothing() {
    let arg = Argument {
        value: ArgumentValue::String("--demo".to_string()),
        rules: Some(vec![Rule {
            action: RuleAction::Allow,
            os: Some(OsSpecifier { name: Some(OsKind::Windows) }),
            features: None,
        }]),
    };
    let flat = collect_arguments(&vec![arg], OsKind::Linux);
    assert_eq!(flat, Vec::<String>::new());
}

#[test]
fn template_splits_on_semicolon_before_substitution() {
    let arg = string_arg("--width; ${width}");
    let flat = collect_arguments(&vec![arg], OsKind::Linux);
    assert_eq!(flat, vec!["--width".to_string(), "${width}".to_string()]);
}

#[test]
fn flattening_trims_and_drops_empty_parts() {
    let arg = string_arg("  a ;  ; b  ;");
    let flat = collect_arguments(&vec![arg], OsKind::Linux);
    assert_eq!(flat, vec!["a".to_string(), "b".to_string()]);
}

#[test]
fn array_value_joins_with_platform_separator() {
    let arg = Argument {
        value: ArgumentValue::Array(vec!["a".to_string(), "b".to_string()]),
        rules: None,
    };
    let flat = collect_arguments(&vec![arg.clone()], OsKind::Linux);
    assert_eq!(flat, vec!["a:b".to_string()]);
    // On Windows the joiner is `;`, which the splitter then takes apart.
    let flat_win = collect_arguments(&vec![arg], OsKind::Windows);
    assert_eq!(flat_win, vec!["a".to_string(), "b".to_string()]);
}

#[test]
fn substitution_leaves_plain_strings_alone() {
    let mut map = DataMap::new();
    map.insert("width".to_string(), "800".to_string());
    let args = Arguments { jvm: vec![], game: vec![string_arg("foo")] };
    let config = plain_config();
    let out = args.collect(&config, &map, OsKind::Linux);
    assert_eq!(out, vec!["foo".to_string()]);
}

#[test]
fn substitution_replaces_known_keys() {
    let mut map = DataMap::new();
    map.insert("width".to_string(), "800".to_string());
    let args = Arguments { jvm: vec![], game: vec![string_arg("--width; ${width}")] };
    let config = plain_config();
    let out = args.collect(&config, &map, OsKind::Linux);
    assert_eq!(out, vec!["--width".to_string(), "800".to_string()]);
}

#[test]
fn substitution_leaves_unknown_keys_as_written() {
    let map = DataMap::new();
    let args = Arguments { jvm: vec![], game: vec![string_arg("--width; ${width}")] };
    let config = plain_config();
    let out = args.collect(&config, &map, OsKind::Linux);
    assert_eq!(out, vec!["--width".to_string(), "${width}".to_string()]);
}

#[test]
fn substitution_handles_several_placeholders_in_one_string() {
    let mut map = DataMap::new();
    map.insert("a".to_string(), "1".to_string());
    map.insert("b".to_string(), "2".to_string());
    let args = Arguments { jvm: vec![], game: vec![string_arg("${a}x${b}${missing}")] };
    let config = plain_config();
    let out = args.collect(&config, &map, OsKind::Linux);
    assert_eq!(out, vec!["1x2${missing}".to_string()]);
}

#[test]
fn window_arguments_appended_when_configured() {
    let mut config = plain_config();
    config.window.width = Some(1024);
    config.window.fullscreen = Some(true);
    let mut map = DataMap::new();
    map.insert("width".to_string(), "1024".to_string());
    let args = Arguments { jvm: vec![], game: vec![string_arg("--game")] };
    let out = args.collect(&config, &map, OsKind::Linux);
    assert_eq!(
        out,
        vec![
            "--game".to_string(),
            "--width".to_string(),
            "1024".to_string(),
            "--fullscreen".to_string(),
        ]
    );
}

#[test]
fn authlib_agent_prepended_when_configured() {
    let mut config = plain_config();
    config.session.authlib_server = Some(AuthLibConfiguration {
        server: "https://auth.example".to_string(),
        version: "1.2.5".to_string(),
    });
    let map = DataMap::new();
    let args = Arguments { jvm: vec![string_arg("-Xmx2G")], game: vec![] };
    let out = args.collect(&config, &map, OsKind::Linux);
    assert_eq!(
        out,
        vec![
            "-javaagent:${libraries_dir}/moe/yushi/authlibinjector/1.2.5/authlibinjector-1.2.5.jar=${authlib_server}"
                .to_string(),
            "-Xmx2G".to_string(),
        ]
    );
}

#[test]
fn user_type_renders_as_json() {
    assert_eq!(MinecraftSessionUserType::Mojang.to_json_string(), "\"mojang\"");
    assert_eq!(MinecraftSessionUserType::Legacy.to_json_string(), "\"legacy\"");
}
