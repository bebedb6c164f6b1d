use rush::builtins::{edit_path, env_var, env_var_of_upper, parse_setting, EnvVar, PathEnd, Setting};
use rush::config::{Configuration, MalformedLine};
use rush::exec_errors::ArgumentError;
use rush::listing::{listing, sort_texts, text_less, DirEntry};
use rush::parse::{parse_bool, parse_usize};
use rush::text::push_decimal;

#[test]
fn settings_parse() {
    assert_eq!(parse_setting("truncation", "3"), Ok(Setting::Truncation(Some(3))));
    assert_eq!(parse_setting("truncation", "false"), Ok(Setting::Truncation(None)));
    assert_eq!(parse_setting("history-limit", "+10"), Ok(Setting::HistoryLimit(Some(10))));
    assert_eq!(parse_setting("show-errors", "false"), Ok(Setting::ShowErrors(false)));
    let f = parse_setting("truncation", "abc").unwrap_err();
    assert_eq!(f.kind, ArgumentError::InvalidValue("abc".to_string()));
    assert_eq!(f.message, "Invalid truncation length: 'abc'");
    let f = parse_setting("show-errors", "yes").unwrap_err();
    assert_eq!(f.message, "Invalid value for show-errors: 'yes'");
    let f = parse_setting("colour", "red").unwrap_err();
    assert_eq!(f.kind, ArgumentError::InvalidArgument("colour".to_string()));
    assert_eq!(f.message, "Invalid configuration key: 'colour'");
}

#[test]
fn configure_changes_one_setting() {
    let mut c = Configuration::default();
    assert!(c.show_errors);
    c.configure("history-limit", "5").unwrap();
    assert_eq!(c.history_limit, Some(5));
    assert_eq!(c.truncation_factor, None);
    assert!(c.configure("history-limit", "-1").is_err());
    assert_eq!(c.history_limit, Some(5));
    c.configure("show-errors", "false").unwrap();
    assert!(!c.show_errors);
}

#[test]
fn numbers_and_truth_values_parse() {
    assert_eq!(parse_usize("42"), Some(42));
    assert_eq!(parse_usize("+7"), Some(7));
    assert_eq!(parse_usize("007"), Some(7));
    assert_eq!(parse_usize(""), None);
    assert_eq!(parse_usize("+"), None);
    assert_eq!(parse_usize("-1"), None);
    assert_eq!(parse_usize("1 "), None);
    assert_eq!(parse_usize(&usize::MAX.to_string()), Some(usize::MAX));
    assert_eq!(parse_usize(&format!("{}0", usize::MAX)), None);
    assert_eq!(parse_bool("true"), Some(true));
    assert_eq!(parse_bool("True"), None);
    let mut s = String::from("n=");
    push_decimal(&mut s, 9_007_199_254_740_993);
    assert_eq!(s, "n=9007199254740993");
}

#[test]
fn environment_variables_in_any_case() {
    assert_eq!(env_var("path"), Ok(EnvVar::Path));
    assert_eq!(env_var("User"), Ok(EnvVar::User));
    assert_eq!(env_var("home"), Ok(EnvVar::Home));
    assert_eq!(env_var("cwd"), Ok(EnvVar::WorkingDirectory));
    assert_eq!(env_var("working-directory"), Ok(EnvVar::WorkingDirectory));
    let f = env_var("shell").unwrap_err();
    assert_eq!(f.kind, ArgumentError::InvalidArgument("shell".to_string()));
    assert_eq!(f.message, "Invalid environment variable: 'shell'");
    assert!(env_var_of_upper("path", "path").is_err());
    assert_eq!(env_var_of_upper("PATH", "path"), Ok(EnvVar::Path));
}

#[test]
fn edit_path_decisions() {
    assert_eq!(
        edit_path("append", "~/bin", Some("/home/u/bin".to_string())),
        Ok((PathEnd::Front, "/home/u/bin".to_string()))
    );
    assert_eq!(
        edit_path("prepend", "/opt", Some("/opt".to_string())),
        Ok((PathEnd::Back, "/opt".to_string()))
    );
    let f = edit_path("insert", "/opt", Some("/opt".to_string())).unwrap_err();
    assert_eq!(f.message, "Invalid action: 'insert'");
    let f = edit_path("append", "/nowhere", None).unwrap_err();
    assert_eq!(f.kind, ArgumentError::InvalidArgument("/nowhere".to_string()));
    assert_eq!(f.message, "Invalid directory: '/nowhere'");
}

fn entry(name: &str, is_dir: bool) -> DirEntry {
    DirEntry { name: name.to_string(), is_dir }
}

#[test]
fn listing_shows_directories_first_each_sorted() {
    let es = vec![
        entry("zeta.txt", false),
        entry("src", true),
        entry(".git", true),
        entry("Cargo.toml", false),
        entry("app", true),
        entry(".env", false),
    ];
    assert_eq!(listing(&es, false), vec!["app/", "src/", "Cargo.toml", "zeta.txt"]);
    assert_eq!(
        listing(&es, true),
        vec![".git/", "app/", "src/", ".env", "Cargo.toml", "zeta.txt"]
    );
    assert!(listing(&vec![], true).is_empty());
}

#[test]
fn strings_sort_like_std() {
    let v: Vec<String> = ["b", "a", "ab", "", "B", "é", "a"].iter().map(|s| s.to_string()).collect();
    let mut expected = v.clone();
    expected.sort();
    assert_eq!(sort_texts(v), expected);
    assert!(text_less("a", "ab"));
    assert!(!text_less("ab", "ab"));
    assert!(text_less("Z", "a"));
}

#[test]
fn configuration_lines() {
    let lines: Vec<String> = ["truncation-factor: 4", "show-errors: false", "plugin: p.wasm", "history-limit: x"]
        .iter()
        .map(|s| s.to_string())
        .collect();
    let c = Configuration::from_lines(&lines, "/etc/rush").unwrap();
    assert_eq!(c.truncation_factor, Some(4));
    assert!(!c.show_errors);
    assert_eq!(c.plugins, vec!["/etc/rush/p.wasm".to_string()]);
    assert_eq!(c.history_limit, None);
    let bad = vec!["colour: red".to_string()];
    assert_eq!(Configuration::from_lines(&bad, "/etc").err(), Some(MalformedLine));
    let two = vec!["a: b: c".to_string()];
    assert!(Configuration::from_lines(&two, "/etc").is_err());
    let none = vec!["truncation-factor 3".to_string()];
    assert!(Configuration::from_lines(&none, "/etc").is_err());
    let mut c = Configuration::default();
    assert_eq!(c.read_line("truncation-factor: false", "/"), Ok(()));
    assert_eq!(c.truncation_factor, None);
}
