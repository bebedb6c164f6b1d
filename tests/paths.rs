use rush::path::{candidate_paths, expand_home, join_path, shorten_path, Path, PathError};

#[test]
fn home_collapses_to_tilde() {
    let home = "/home/u".to_string();
    let p = Path::new("/home/u/projects/rush".to_string(), &home).unwrap();
    assert_eq!(p.short(), "~/projects/rush");
    assert_eq!(p.absolute(), "/home/u/projects/rush");
    assert_eq!(Path::new("/home/u".to_string(), &home).unwrap().short(), "~");
    assert_eq!(Path::new("/usr/bin".to_string(), &home).unwrap().short(), "/usr/bin");
    assert_eq!(Path::new("/home/user".to_string(), &home).unwrap().short(), "/home/user");
}

#[test]
fn truncation_cuts_each_component() {
    let home = "/home/u".to_string();
    let mut p = Path::new("/home/u/projects/rush".to_string(), &home).unwrap();
    p.set_truncation(2).unwrap();
    assert_eq!(p.short(), "~/pr/ru");
    p.disable_truncation().unwrap();
    assert_eq!(p.short(), "~/projects/rush");
    assert_eq!(shorten_path("/usr/local/bin", "/home/u", Some(1)), "/u/l/b");
    assert_eq!(shorten_path("/usr/local/bin", "/home/u", Some(0)), "///");
}

#[test]
fn set_path_moves_or_refuses() {
    let home = "/home/u".to_string();
    let mut p = Path::new("/tmp".to_string(), &home).unwrap();
    assert_eq!(p.set_path(None), Err(PathError::UnknownDirectory));
    assert_eq!(p.absolute(), "/tmp");
    assert_eq!(p.set_path(Some("/home/u/docs".to_string())), Ok(()));
    assert_eq!(p.short(), "~/docs");
    assert!(Path::from_str_path(None, &home).is_err());
    assert_eq!(Path::from_str_path(Some("/etc".to_string()), &home).unwrap().short(), "/etc");
}

#[test]
fn tilde_expands_to_home() {
    assert_eq!(expand_home("~/x", "/home/u"), "/home/u/x");
    assert_eq!(expand_home("~", "/home/u"), "/home/u");
    assert_eq!(expand_home("~/a~b", "/h"), "/h/a/hb");
    assert_eq!(expand_home("a/~", "/h"), "a/~");
}

#[test]
fn names_join_under_directories() {
    assert_eq!(join_path("/bin", "ls"), "/bin/ls");
    assert_eq!(join_path("/bin/", "ls"), "/bin/ls");
    assert_eq!(join_path("", "ls"), "ls");
    assert_eq!(join_path("/bin", "/opt/ls"), "/opt/ls");
    let dirs = vec!["/usr/bin".to_string(), "/bin".to_string()];
    assert_eq!(candidate_paths("ls", &dirs), vec!["/usr/bin/ls".to_string(), "/bin/ls".to_string()]);
}
