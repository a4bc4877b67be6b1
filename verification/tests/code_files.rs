use shinkai_tools_runner::code_files::CodeFiles;

#[test]
fn files_are_found_by_name() {
    let files = CodeFiles::new("main.py".to_string())
        .with_file("main.py".to_string(), "print(1)".to_string())
        .with_file("util.py".to_string(), "x = 1".to_string());
    assert_eq!(files.entrypoint(), "main.py");
    assert_eq!(files.get("main.py"), Some(&"print(1)".to_string()));
    assert_eq!(files.get("util.py"), Some(&"x = 1".to_string()));
    assert_eq!(files.get("other.py"), None);
    assert!(files.contains("util.py"));
    assert!(!files.contains("Main.py"));
    assert_eq!(files.entries().len(), 2);
}

#[test]
fn a_file_takes_the_place_of_one_with_its_name() {
    let files = CodeFiles::new("main.py".to_string())
        .with_file("main.py".to_string(), "old".to_string())
        .with_file("util.py".to_string(), "x = 1".to_string())
        .with_file("main.py".to_string(), "new".to_string());
    assert_eq!(files.get("main.py"), Some(&"new".to_string()));
    assert_eq!(files.entries().len(), 2);
    let names: Vec<&str> = files.entries().iter().map(|(name, _)| name.as_str()).collect();
    assert_eq!(names, vec!["main.py", "util.py"]);
}

#[test]
fn a_copy_holds_the_same_files() {
    let files = CodeFiles::new("main.py".to_string())
        .with_file("main.py".to_string(), "print(1)".to_string());
    let copy = files.copy();
    assert_eq!(copy.entrypoint(), files.entrypoint());
    assert_eq!(copy.entries(), files.entries());
}

#[test]
fn the_entry_file_may_be_missing() {
    let files = CodeFiles::new("main.py".to_string());
    assert!(!files.contains("main.py"));
    assert!(files.entries().is_empty());
}
