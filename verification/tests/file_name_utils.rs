use shinkai_tools_runner::file_name_utils::{
    normalize_for_docker_path, normalized_path, sanitize_for_file_name,
};

#[test]
fn test_normalize_for_docker_path() {
    assert_eq!(
        normalize_for_docker_path("C:/Users/John/Documents/test.txt"),
        "//c/Users/John/Documents/test.txt".to_string()
    );
}

#[test]
fn docker_path_without_drive_letter_is_unchanged() {
    assert_eq!(normalize_for_docker_path("/home/john/test.txt"), "/home/john/test.txt");
    assert_eq!(normalize_for_docker_path("relative/test.txt"), "relative/test.txt");
    assert_eq!(normalize_for_docker_path(""), "");
}

#[test]
fn docker_path_turns_backslashes_first() {
    assert_eq!(normalize_for_docker_path("D:\\data\\in.csv"), "//d/data/in.csv");
    assert_eq!(normalize_for_docker_path("\\\\server\\share"), "//server/share");
}

#[test]
fn docker_path_needs_a_letter_a_colon_and_a_slash() {
    assert_eq!(normalize_for_docker_path("c:/users"), "//c/users");
    assert_eq!(normalize_for_docker_path("z:\\Data\\C:/x"), "//z/Data/C:/x");
    assert_eq!(normalize_for_docker_path("1:/x"), "1:/x");
    assert_eq!(normalize_for_docker_path("@:/x"), "@:/x");
    assert_eq!(normalize_for_docker_path("[:/x"), "[:/x");
    assert_eq!(normalize_for_docker_path("`:/x"), "`:/x");
    assert_eq!(normalize_for_docker_path("{:/x"), "{:/x");
    assert_eq!(normalize_for_docker_path("ab:/x"), "ab:/x");
    assert_eq!(normalize_for_docker_path("C:"), "C:");
    assert_eq!(normalize_for_docker_path("C:x/y"), "C:x/y");
    assert_eq!(normalize_for_docker_path("/C:/x"), "/C:/x");
    assert_eq!(normalize_for_docker_path("Z:/"), "//z/");
    assert_eq!(normalize_for_docker_path("A:/C:/x"), "//a/C:/x");
    assert_eq!(normalize_for_docker_path("É:/x"), "É:/x");
}

#[test]
fn normalized_path_has_forward_slashes() {
    assert_eq!(normalized_path("a\\b\\c"), "a/b/c");
    assert_eq!(normalized_path("a/b"), "a/b");
}

#[test]
fn sanitize_keeps_letters_digits_dash_and_underscore() {
    assert_eq!(sanitize_for_file_name("my file (1).txt".to_string()), "myfile1txt");
    assert_eq!(sanitize_for_file_name("a-b_c".to_string()), "a-b_c");
    assert_eq!(sanitize_for_file_name("../../etc/passwd".to_string()), "etcpasswd");
    assert_eq!(sanitize_for_file_name("".to_string()), "");
    assert_eq!(sanitize_for_file_name("héllo wörld ٣".to_string()), "héllowörld٣");
}

#[test]
fn sanitize_agrees_with_the_standard_library() {
    let name = "Tool: naïve/β-test_№7 .py";
    let expected = name.replace(|c: char| !c.is_alphanumeric() && c != '-' && c != '_', "");
    assert_eq!(sanitize_for_file_name(name.to_string()), expected);
}

#[test]
fn docker_path_has_the_drive_letter_in_lower_case() {
    for letter in ('A'..='Z').chain('a'..='z') {
        let path = format!("{letter}:/Users/John");
        let expected = format!("//{}/Users/John", letter.to_ascii_lowercase());
        assert_eq!(normalize_for_docker_path(&path), expected);
    }
}

#[test]
fn sanitize_leaves_no_ascii_character_but_letters_digits_dash_and_underscore() {
    let all: String = (0u8..128).map(|code| code as char).collect();
    assert_eq!(
        sanitize_for_file_name(all),
        "-0123456789ABCDEFGHIJKLMNOPQRSTUVWXYZ_abcdefghijklmnopqrstuvwxyz"
    );
    let name = sanitize_for_file_name("..\\..//a b:c.d".to_string());
    assert_eq!(name, "abcd");
    assert!(!name.contains(['/', '\\', '.', ':', ' ']));
}
