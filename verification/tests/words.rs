use loc_cli::cloud_files::{
    parse_tasklist_csv_line, windows_cloud_files_path_key,
    windows_cloud_files_shared_sync_root_id_for_projection_root, windows_process_is_running,
    windows_style_parent,
};
use loc_cli::create::absolute_path;
use loc_cli::file_provider::{
    bounded_systemd_hint, linux_fuse_root_id, linux_fuse_unit_name, sanitize_systemd_fragment,
    stable_hex_hash, stable_lifecycle_hash,
};
use loc_cli::hosted_workspace::absolute_normalized_root;
use loc_cli::json::{set_field, Json, JsonField};
use loc_cli::model::{MountConfig, ProjectionMode};
use loc_cli::paths;
use loc_cli::paths::PathStyle;
use loc_cli::pull::absolute_command_path;
use loc_cli::quoting::{
    escape_json_string, shell_quote, shell_quote_path, systemd_quote, url_encode,
    yaml_double_quoted, yaml_string,
};
use loc_cli::sorting::{insert_texts, sort};
use loc_cli::text;

fn strings(values: &[&str]) -> Vec<String> {
    values.iter().map(|value| value.to_string()).collect()
}

#[test]
fn shell_words_are_quoted_where_needed() {
    assert_eq!(shell_quote("/tmp/a-b_c.md:~="), "/tmp/a-b_c.md:~=");
    assert_eq!(shell_quote("My Page.md"), "'My Page.md'");
    assert_eq!(shell_quote("it's"), "'it'\\''s'");
    assert_eq!(shell_quote(""), "");
    assert_eq!(shell_quote_path("/tmp/a:b"), "/tmp/a:b");
    assert_eq!(shell_quote_path("/tmp/a~b"), "'/tmp/a~b'");
}

#[test]
fn systemd_words_escape_what_systemd_expands() {
    assert_eq!(systemd_quote("/usr/bin/fuse"), "/usr/bin/fuse");
    assert_eq!(
        systemd_quote("/a b/\"$`\\"),
        "\"/a b/\\\"\\$\\`\\\\\""
    );
}

#[test]
fn yaml_scalars_are_quoted_where_needed() {
    assert_eq!(yaml_string("Plain title-1_2.0"), "Plain title-1_2.0");
    assert_eq!(yaml_string("a: \"b\\\""), "\"a: \\\"b\\\\\\\"\"");
    assert_eq!(
        yaml_double_quoted("a\"\\\n\r\tb"),
        "\"a\\\"\\\\\\n\\r\\tb\""
    );
    assert_eq!(escape_json_string("a\"b\\"), "a\\\"b\\\\");
}

#[test]
fn urls_are_percent_encoded_by_byte() {
    assert_eq!(url_encode("a-Z_0.~"), "a-Z_0.~");
    assert_eq!(url_encode("a b/\u{e9}"), "a%20b%2F%C3%A9");
}

#[test]
fn texts_are_trimmed_split_and_lowered() {
    assert_eq!(text::trim(" \u{3000}\ta b\n\u{a0}"), "a b");
    assert_eq!(text::trim(" \n"), "");
    assert_eq!(text::split("a,,b", ','), strings(&["a", "", "b"]));
    assert_eq!(text::split("", ','), strings(&[""]));
    assert_eq!(text::lines_of("a\r\nb\n\nc"), strings(&["a", "b", "", "c"]));
    assert_eq!(text::lines_of("a\n"), strings(&["a"]));
    assert_eq!(text::to_lowercase("ABC\u{c9}z"), "abc\u{c9}z");
    assert_eq!(text::join(&strings(&["a", "b"]), ", "), "a, b");
    assert_eq!(text::join(&Vec::new(), ", "), "");
}

#[test]
fn numbers_are_written_and_read() {
    assert_eq!(text::decimal_text(0), "0");
    assert_eq!(text::decimal_text(u128::MAX), u128::MAX.to_string());
    assert_eq!(text::parse_u64("18446744073709551615"), Some(u64::MAX));
    assert_eq!(text::parse_u64("18446744073709551616"), None);
    assert_eq!(text::parse_u64(""), None);
    assert_eq!(text::parse_u64("-1"), None);
    assert_eq!(text::parse_u64("+7"), Some(7));
    assert_eq!(text::parse_u64("007"), Some(7));
}

#[test]
fn texts_are_cut_to_whole_characters() {
    assert_eq!(text::fit("\u{e9}\u{e9}\u{e9}", 5), "\u{e9}\u{e9}");
    assert_eq!(text::fit("abc", 5), "abc");
    assert_eq!(text::fit("abc", 0), "");
}

#[test]
fn paths_are_compared_by_component() {
    assert!(paths::same_path(PathStyle::Unix, "/a//b/", "/a/b"));
    assert!(paths::same_path(PathStyle::Unix, "/a/./b", "/a/b"));
    assert!(!paths::same_path(PathStyle::Unix, "./a", "a"));
    assert!(!paths::same_path(PathStyle::Unix, "/a/../b", "/b"));
    assert_eq!(paths::file_name(PathStyle::Unix, "/a/b.md"), Some("b.md".to_string()));
    assert_eq!(paths::file_name(PathStyle::Unix, "/a/.."), None);
    assert_eq!(paths::file_name(PathStyle::Unix, "/"), None);
    assert_eq!(paths::parent(PathStyle::Unix, "/a/b"), Some("/a".to_string()));
    assert_eq!(paths::parent(PathStyle::Unix, "a"), Some(String::new()));
    assert_eq!(paths::parent(PathStyle::Unix, "/"), None);
    assert_eq!(paths::join(PathStyle::Unix, "/a", "b"), "/a/b");
    assert_eq!(paths::join(PathStyle::Unix, "/a/", "b"), "/a/b");
    assert_eq!(paths::join(PathStyle::Unix, "/a", "/b"), "/b");
    assert_eq!(
        paths::strip_prefix(PathStyle::Unix, "/a/b/c", "/a"),
        Some("b/c".to_string())
    );
    assert_eq!(paths::strip_prefix(PathStyle::Unix, "/ab", "/a"), None);
    assert_eq!(paths::extension(PathStyle::Unix, "/a/b.tar.gz"), Some("gz".to_string()));
    assert_eq!(paths::extension(PathStyle::Unix, "/a/.hidden"), None);
    assert!(paths::is_absolute(PathStyle::Unix, "/a"));
    assert!(!paths::is_absolute(PathStyle::Unix, "a"));
}

#[test]
fn windows_paths_have_drives_and_shares() {
    let windows = PathStyle::Windows;
    assert!(paths::is_absolute(windows, r"C:\Users\Ada"));
    assert!(paths::is_absolute(windows, "c:/Users"));
    assert!(paths::is_absolute(windows, r"\\server\share"));
    assert!(!paths::is_absolute(windows, r"C:Users"));
    assert!(!paths::is_absolute(windows, r"\Users"));
    assert!(!paths::is_absolute(windows, r"\\server"));
    assert!(!paths::is_absolute(windows, r"Users\Ada"));
    assert!(!paths::is_absolute(PathStyle::Unix, r"C:\Users\Ada"));

    assert!(paths::same_path(windows, r"C:\a\b", "c:/a//b/"));
    assert!(paths::same_path(windows, r"\\s\h\a", "//s/h/a"));
    assert!(!paths::same_path(windows, r"C:\a", r"D:\a"));
    assert!(!paths::same_path(windows, r"C:\a", r"C:a"));
    assert!(!paths::same_path(PathStyle::Unix, r"a\b", "a/b"));

    assert_eq!(paths::join(windows, r"C:\Users", r"Ada"), r"C:\Users\Ada");
    assert_eq!(paths::join(windows, r"C:\Users", r"D:\Ada"), r"D:\Ada");
    assert_eq!(paths::join(windows, r"C:\Users", r"\Ada"), r"C:\Ada");
    assert_eq!(paths::join(windows, r"\\s\h\x", r"\Ada"), r"\\s\h\Ada");
    assert_eq!(paths::join(windows, "C:", "Ada"), "C:Ada");
    assert_eq!(paths::join(PathStyle::Unix, "/work", r"C:\Users"), r"/work/C:\Users");

    assert_eq!(paths::parent(windows, r"C:\a\b"), Some(r"C:\a".to_string()));
    assert_eq!(paths::parent(windows, r"C:\a"), Some(r"C:\".to_string()));
    assert_eq!(paths::parent(windows, r"C:\"), None);
    assert_eq!(paths::parent(windows, r"\\s\h"), None);
    assert_eq!(paths::file_name(windows, r"C:\a\b.md"), Some("b.md".to_string()));
    assert_eq!(
        paths::strip_prefix(windows, r"C:\a\b\c", "c:/a"),
        Some(r"b\c".to_string())
    );
    assert_eq!(paths::extension(windows, r"C:\a.b\c"), None);
    assert!(paths::path_not_after(windows, r"\\s\h\z", r"C:\a"));
    assert!(!paths::path_not_after(windows, r"D:\a", r"C:\z"));
}

#[test]
fn parents_and_rests_are_parts_of_the_text() {
    let unix = PathStyle::Unix;
    let parent = |path: &str| paths::parent(unix, path);
    assert_eq!(parent("/a//b/c"), Some("/a//b".to_string()));
    assert_eq!(parent("/a//b"), Some("/a".to_string()));
    assert_eq!(parent("/w/./inbox/t/page.md"), Some("/w/./inbox/t".to_string()));
    assert_eq!(parent("a/./b/"), Some("a".to_string()));
    assert_eq!(parent("./a"), Some(".".to_string()));
    assert_eq!(parent("//a"), Some("/".to_string()));
    assert_eq!(parent("."), Some(String::new()));
    assert_eq!(parent(""), None);
    let rest = |path: &str, root: &str| paths::strip_prefix(unix, path, root);
    assert_eq!(rest("/a/b//c/", "/a/"), Some("b//c".to_string()));
    assert_eq!(rest("/a/./b/.", "//a"), Some("b".to_string()));
    assert_eq!(rest("/a/", "/a"), Some(String::new()));
    assert_eq!(rest("/a/b/", ""), Some("/a/b".to_string()));
    assert_eq!(rest("/a/b", "/a/c"), None);
    assert_eq!(rest("a/b/", ""), Some("a/b".to_string()));
    let windows = PathStyle::Windows;
    assert_eq!(paths::strip_prefix(windows, r"C:\a\b/c", r"C:\a"), Some("b/c".to_string()));
    assert_eq!(paths::strip_prefix(windows, r"c:\a", "C:"), Some(r"\a".to_string()));
    assert_eq!(paths::parent(windows, r"\\s\h\a"), Some(r"\\s\h\".to_string()));
}

#[test]
fn verbatim_paths_have_one_separator() {
    let windows = PathStyle::Windows;
    assert_eq!(paths::components_of(windows, r"\\?\s\a/b").len(), 3);
    assert_eq!(paths::file_name(windows, r"\\?\s\a/b"), Some("a/b".to_string()));
    assert_eq!(paths::components_of(windows, r"\\?\s\.\a").len(), 4);
    assert!(paths::same_path(windows, r"\\?\c:\a", r"\\?\C:\a"));
    assert!(!paths::same_path(windows, r"\\?\C:\a", r"C:\a"));
    assert!(paths::is_absolute(windows, r"\\?\C:"));
    assert_eq!(paths::parent(windows, r"\\?\UNC\s\h\a"), Some(r"\\?\UNC\s\h\".to_string()));
    assert_eq!(paths::components_of(windows, r"\\?\UNC\s\h\a").len(), 3);
    assert_eq!(paths::components_of(windows, r"\\.\COM1").len(), 2);
    assert_eq!(paths::join(windows, r"\\?\C:\a", r"..\b/./c"), r"\\?\C:\b\c");
    assert_eq!(paths::join(windows, r"\\?\C:\a", r"\b"), r"\\?\C:\b");
    assert_eq!(paths::join(windows, r"\\?\C:\a", ""), r"\\?\C:\a\");
    assert_eq!(paths::join(windows, r"\\?\C:\a", r"D:\b"), r"D:\b");
    assert!(paths::path_not_after(windows, r"\\?\s\z", r"\\.\COM1"));
    assert!(paths::path_not_after(windows, r"\\.\COM1", r"\\a\b"));
}

#[test]
fn commands_hand_absolute_paths_on() {
    let windows = Some(r"C:\work".to_string());
    assert_eq!(
        absolute_command_path(PathStyle::Windows, r"C:\Users\Ada", &windows),
        r"C:\Users\Ada"
    );
    assert_eq!(
        absolute_command_path(PathStyle::Windows, "Plan", &windows),
        r"C:\work\Plan"
    );
    assert_eq!(absolute_command_path(PathStyle::Windows, "Plan", &None), "Plan");
    let unix = Some("/work".to_string());
    assert_eq!(absolute_command_path(PathStyle::Unix, "/a", &unix), "/a");
    assert_eq!(absolute_command_path(PathStyle::Unix, "a", &unix), "/work/a");
    assert_eq!(
        absolute_normalized_root(PathStyle::Windows, r"D:\Work", Err("gone".to_string())),
        Ok(r"D:\Work".to_string())
    );
    assert!(absolute_normalized_root(PathStyle::Windows, r"D:\Work\..", Ok(r"C:\".to_string()))
        .is_err());
    assert_eq!(
        absolute_path(PathStyle::Windows, r"D:\Work", &Err("gone".to_string())).expect("path"),
        r"D:\Work"
    );
}

#[test]
fn sorting_is_by_character_and_keeps_everything() {
    assert_eq!(
        sort(strings(&["b", "a", "Z", "b", ""])),
        strings(&["", "Z", "a", "b", "b"])
    );
    let mut set = strings(&["b"]);
    insert_texts(&mut set, &strings(&["c", "a", "b", "a"]));
    assert_eq!(set, strings(&["a", "b", "c"]));
}

#[test]
fn a_field_that_was_set_is_read_back() {
    let mut fields = vec![JsonField {
        key: "a".to_string(),
        value: Json::Bool(true),
    }];
    set_field(&mut fields, "b".to_string(), Json::Text("x".to_string()));
    set_field(&mut fields, "a".to_string(), Json::Bool(false));
    let object = Json::Object(fields);

    assert_eq!(object.get_bool("a"), Some(false));
    assert_eq!(object.get_text("b"), Some("x"));
    assert_eq!(object.get("c"), None);
    assert_eq!(object.get_text("a"), None);
    assert_eq!(Json::Null.get("a"), None);
}

#[test]
fn hashes_are_fnv1a() {
    assert_eq!(stable_lifecycle_hash(""), 0xcbf2_9ce4_8422_2325);
    assert_eq!(stable_lifecycle_hash("a"), 0xaf63_dc4c_8601_ec8c);
    assert_eq!(stable_hex_hash("a"), "af63dc4c8601ec8c");
}

#[test]
fn systemd_names_are_sanitized_and_bounded() {
    assert_eq!(sanitize_systemd_fragment("notion/main"), "notion_main");
    assert_eq!(bounded_systemd_hint("/a b/", 48), "a_b");
    assert_eq!(bounded_systemd_hint("///", 48), "root");
    let mut mount =
        MountConfig::new("m", "notion", "/a/notion").projection(ProjectionMode::LinuxFuse);
    mount.projection_root = "/a".to_string();
    let id = linux_fuse_root_id(&mount);
    assert_eq!(id, format!("root-a-{}", stable_hex_hash("/a")));
    assert_eq!(
        linux_fuse_unit_name(&id),
        format!("ai.codeflash.locality.fuse.{id}.service")
    );
}

#[test]
fn windows_paths_have_one_key_for_all_spellings() {
    assert_eq!(
        windows_cloud_files_path_key("C:/Users/Ada/Locality//"),
        "c:\\users\\ada\\locality"
    );
    assert_eq!(windows_cloud_files_path_key("C:\\"), "c:\\");
    assert_eq!(
        windows_cloud_files_shared_sync_root_id_for_projection_root("C:/Users/ADA/Locality/"),
        windows_cloud_files_shared_sync_root_id_for_projection_root("c:\\users\\ada\\locality")
    );
    assert_eq!(
        windows_style_parent("C:\\a/b"),
        Some("C:\\a".to_string())
    );
    assert_eq!(windows_style_parent("/b"), None);
    assert_eq!(windows_style_parent("b"), None);
}

#[test]
fn task_lists_read_back_and_find_the_helper() {
    assert_eq!(
        parse_tasklist_csv_line("\"a \"\"b\"\"\",\" c \""),
        strings(&["a \"b\"", "c"])
    );
    let list = "\"locality-cloud-files.exe\",\"1234\",\"Console\",\"1\",\"10,000 K\"\r\n";
    assert!(windows_process_is_running(
        PathStyle::Unix,
        list,
        1234,
        "C:/bin/locality-cloud-files.exe"
    ));
    assert!(!windows_process_is_running(
        PathStyle::Unix,
        list,
        1235,
        "C:/bin/locality-cloud-files.exe"
    ));
    assert!(windows_process_is_running(PathStyle::Unix, list, 1234, "C:/bin/other.exe"));
    let other = "\"Other.exe\",\"1234\",\"Console\",\"1\",\"10,000 K\"";
    assert!(windows_process_is_running(PathStyle::Unix, other, 1234, "C:/bin/other.exe"));
    assert!(!windows_process_is_running(
        PathStyle::Unix,
        other,
        1234,
        "C:/bin/locality-cloud-files.exe"
    ));
}
