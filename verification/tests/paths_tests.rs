use cursor_pro_helper::paths::{
    default_js_path_candidates, linux_launch_candidates, resolve_api_config_path,
    resolve_db_path, resolve_storage_path, windows_launch_candidates, OsKind,
};
use cursor_pro_helper::textops::{ascii_upper, contains_sub, str_eq};

#[test]
fn storage_paths_per_os() {
    assert_eq!(
        resolve_storage_path(OsKind::Linux, "/home/u").unwrap(),
        "/home/u/.config/Cursor/User/globalStorage/storage.json"
    );
    assert_eq!(
        resolve_storage_path(OsKind::MacOs, "/Users/u").unwrap(),
        "/Users/u/Library/Application Support/Cursor/User/globalStorage/storage.json"
    );
    assert_eq!(
        resolve_storage_path(OsKind::Windows, "C:\\Users\\u").unwrap(),
        "C:\\Users\\u\\AppData\\Roaming\\Cursor\\User\\globalStorage\\storage.json"
    );
    assert!(resolve_storage_path(OsKind::Other, "/h").is_err());
}

#[test]
fn db_and_api_config_paths() {
    assert_eq!(
        resolve_db_path(OsKind::Linux, "/home/u"),
        "/home/u/.config/Cursor/User/globalStorage/state.vscdb"
    );
    assert_eq!(
        resolve_db_path(OsKind::Windows, "C:\\AppData"),
        "C:\\AppData\\Cursor\\User\\globalStorage\\state.vscdb"
    );
    assert_eq!(resolve_api_config_path(OsKind::Linux, "/home/u/.config"), "/home/u/.config/cursor/api_config.json");
    assert_eq!(
        resolve_api_config_path(OsKind::MacOs, "/Users/u"),
        "/Users/u/Library/Application Support/Cursor/api_config.json"
    );
}

#[test]
fn js_candidates_per_os() {
    let linux = default_js_path_candidates(OsKind::Linux, &None);
    assert_eq!(
        linux,
        vec![
            "/opt/Cursor/resources/app/out/main.js".to_string(),
            "/usr/share/cursor/resources/app/out/main.js".to_string(),
        ]
    );
    let win = default_js_path_candidates(OsKind::Windows, &Some("C:\\L".to_string()));
    assert_eq!(win, vec!["C:\\L\\Programs\\cursor\\resources\\app\\out\\main.js".to_string()]);
    assert!(default_js_path_candidates(OsKind::Windows, &None).is_empty());
}

#[test]
fn launch_candidates_fall_back_to_defaults() {
    let wins = windows_launch_candidates(&None, &None, &None, &None);
    assert_eq!(wins[0], "C:\\Program Files\\Cursor\\Cursor.exe");
    assert_eq!(wins[1], "C:\\Program Files (x86)\\Cursor\\Cursor.exe");
    assert_eq!(wins[2], "C:\\Users\\Default\\AppData\\Local\\Cursor\\Cursor.exe");

    let wins = windows_launch_candidates(&Some("D:\\PF".to_string()), &None, &Some("D:\\LAD".to_string()), &None);
    assert_eq!(wins[0], "D:\\PF\\Cursor\\Cursor.exe");
    assert_eq!(wins[2], "D:\\LAD\\Cursor\\Cursor.exe");

    let linux = linux_launch_candidates();
    assert_eq!(linux, vec!["/usr/bin/cursor".to_string(), "/usr/local/bin/cursor".to_string(), "/opt/cursor/cursor".to_string()]);
}

#[test]
fn text_helpers_behave() {
    assert!(str_eq("abc", "abc"));
    assert!(!str_eq("abc", "abd"));
    assert!(contains_sub("No accounts available today", "No accounts available"));
    assert!(!contains_sub("all good", "No accounts available"));
    assert!(contains_sub("anything", ""));
    assert_eq!(ascii_upper("a-f9z"), "A-F9Z");
}
