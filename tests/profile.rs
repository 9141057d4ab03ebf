use turboinstall::profile::env::{EnvError, EnvProfile};
use turboinstall::profile::structured::{
    within_toml_nesting, FormatError, SerdeProfile, MAX_TOML_NESTING,
};
use turboinstall::profile::{
    format_for_extension, load_str, load_text, resolve_format, Format, LoadedProfile, NoProfile,
    Profile, ProfileError,
};

#[test]
fn env_profile_reads_assignments() {
    let p = EnvProfile::from_str("# comment\n\nA=1\n  B = two \nC=\"quoted value\"\nD='x'\nE=a=b\n")
        .unwrap();
    assert_eq!(p.var("A"), Some("1"));
    assert_eq!(p.var("B "), Some(" two"));
    assert_eq!(p.var("C"), Some("quoted value"));
    assert_eq!(p.var("D"), Some("x"));
    assert_eq!(p.var("E"), Some("a=b"));
    assert_eq!(p.var("missing"), None);
}

#[test]
fn env_profile_later_assignment_wins() {
    let p = EnvProfile::from_str("K=1\nL=2\nK=3").unwrap();
    assert_eq!(p.var("K"), Some("3"));
    assert_eq!(
        p.list(),
        vec![
            ("K".to_string(), "3".to_string()),
            ("L".to_string(), "2".to_string())
        ]
    );
}

#[test]
fn env_profile_quotes_stripped_once() {
    let p = EnvProfile::from_str("A=\"\"x\"\"\nB=\"unbalanced'\nC=\"").unwrap();
    assert_eq!(p.var("A"), Some("\"x\""));
    assert_eq!(p.var("B"), Some("\"unbalanced'"));
    assert_eq!(p.var("C"), Some("\""));
}

#[test]
fn env_profile_errors_carry_line_numbers() {
    match EnvProfile::from_str("A=1\n\nno assignment\n") {
        Err(e) => assert_eq!(e, EnvError::MissingAssignment { line: 3 }),
        Ok(_) => panic!("accepted a line without `=`"),
    }
    match EnvProfile::from_str("A=1\n=value") {
        Err(e) => assert_eq!(e, EnvError::MissingName { line: 2 }),
        Ok(_) => panic!("accepted an empty name"),
    }
}

#[test]
fn serde_profiles_read_string_maps() {
    let j = SerdeProfile::from_json(r#"{"b": "2", "a": "1"}"#).unwrap();
    assert_eq!(j.var("a"), Some("1"));
    assert_eq!(
        j.list(),
        vec![
            ("a".to_string(), "1".to_string()),
            ("b".to_string(), "2".to_string())
        ]
    );
    let t = SerdeProfile::from_toml("name = \"app\"\nver = \"1\"\n").unwrap();
    assert_eq!(t.var("name"), Some("app"));
    let y = SerdeProfile::from_yaml("name: app\nother: thing\n").unwrap();
    assert_eq!(y.var("other"), Some("thing"));
}

#[test]
fn serde_profiles_refuse_other_documents() {
    assert!(matches!(SerdeProfile::from_json("[1, 2]"), Err(FormatError::Json(_))));
    assert!(matches!(SerdeProfile::from_json(r#"{"a": 1}"#), Err(FormatError::Json(_))));
    assert!(matches!(SerdeProfile::from_toml("a = 1"), Err(FormatError::Toml(_))));
    assert!(matches!(SerdeProfile::from_yaml("- a\n- b\n"), Err(FormatError::Yaml(_))));
}

#[test]
fn no_profile_is_empty() {
    let p = NoProfile::new();
    assert_eq!(p.var("x"), None);
    assert!(p.list().is_empty());
}

#[test]
fn formats_from_extensions() {
    assert_eq!(format_for_extension("json"), Some(Format::Json));
    assert_eq!(format_for_extension("toml"), Some(Format::Toml));
    assert_eq!(format_for_extension("yaml"), Some(Format::Yaml));
    assert_eq!(format_for_extension("yml"), Some(Format::Yaml));
    assert_eq!(format_for_extension("env"), Some(Format::Env));
    assert_eq!(format_for_extension("JSON"), None);
    assert_eq!(format_for_extension("txt"), None);
    assert!(matches!(resolve_format(Some(Format::Env), Some("json")), Ok(Format::Env)));
    assert!(matches!(resolve_format(None, Some("yml")), Ok(Format::Yaml)));
    assert!(matches!(resolve_format(None, Some("ini")), Err(ProfileError::UnknownFormat)));
    assert!(matches!(resolve_format(None, None), Err(ProfileError::UnknownFormat)));
}

#[test]
fn load_str_picks_the_reader() {
    assert!(matches!(load_str("{}", None), Err(ProfileError::UnknownFormat)));
    match load_str("A=1", Some(Format::Env)) {
        Ok(p @ LoadedProfile::Env(_)) => assert_eq!(p.var("A"), Some("1")),
        _ => panic!("env profile not loaded"),
    }
    match load_str(r#"{"A": "1"}"#, Some(Format::Json)) {
        Ok(p @ LoadedProfile::Serde(_)) => assert_eq!(p.var("A"), Some("1")),
        _ => panic!("json profile not loaded"),
    }
    assert!(matches!(load_str("A", Some(Format::Env)), Err(ProfileError::Env(_))));
    assert!(matches!(load_str("{", Some(Format::Json)), Err(ProfileError::Format(_))));
}

#[test]
fn load_text_uses_the_extension() {
    match load_text("k: v\n", None, Some("yaml")) {
        Ok(p) => assert_eq!(p.var("k"), Some("v")),
        Err(_) => panic!("yaml profile not loaded"),
    }
    assert!(matches!(load_text("k: v\n", None, Some("conf")), Err(ProfileError::UnknownFormat)));
    assert!(matches!(load_text("k: v\n", None, None), Err(ProfileError::UnknownFormat)));
}

#[test]
fn deeply_nested_toml_is_refused_before_parsing() {
    let deep = format!("a = {}", "[".repeat(50_000));
    assert!(!within_toml_nesting(&deep));
    assert!(matches!(SerdeProfile::from_toml(&deep), Err(FormatError::TomlTooDeep)));
    assert!(matches!(
        load_str(&deep, Some(Format::Toml)),
        Err(ProfileError::Format(FormatError::TomlTooDeep))
    ));
    let dotted = format!("{} = \"x\"", vec!["k"; 200].join("."));
    assert!(matches!(SerdeProfile::from_toml(&dotted), Err(FormatError::TomlTooDeep)));

    let at_limit = format!("a = \"{}\"", ".".repeat(MAX_TOML_NESTING));
    assert!(within_toml_nesting(&at_limit));
    let p = SerdeProfile::from_toml(&at_limit).unwrap();
    assert_eq!(p.var("a"), Some(".".repeat(MAX_TOML_NESTING).as_str()));
    let over = format!("a = \"{}\"", ".".repeat(MAX_TOML_NESTING + 1));
    assert!(!within_toml_nesting(&over));
    assert!(matches!(SerdeProfile::from_toml("a = [1]"), Err(FormatError::Toml(_))));
}

#[test]
fn profile_names_are_listed_once() {
    let p = EnvProfile::from_str("A=1\nB=2\nA=3\nB=4\nC=5").unwrap();
    let names: Vec<String> = p.list().into_iter().map(|(k, _)| k).collect();
    assert_eq!(names, vec!["A".to_string(), "B".to_string(), "C".to_string()]);
    let j = SerdeProfile::from_json(r#"{"x": "1", "x": "2"}"#).unwrap();
    assert_eq!(j.list().len(), 1);
}
