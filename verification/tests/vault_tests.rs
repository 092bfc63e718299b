use spell_framework::vault::application::{
    app_data_dirs, desktop_entry_error, desktop_entry_extracter, get_desktop_id, get_exec_command,
    icon_names_to_resolve, icon_search_dirs, icon_search_plan, remove_last,
    theme_name_from_gsettings, DesktopEntryError,
};
use spell_framework::vault::{AppData, AppSelector};

fn lines(text: &str) -> Vec<String> {
    text.lines().map(|l| l.to_string()).collect()
}

fn app(name: &str, primary: bool) -> AppData {
    AppData {
        desktop_file_id: "x.desktop".to_string(),
        is_primary: primary,
        image_path: None,
        name: name.to_string(),
        exec_comm: None,
    }
}

#[test]
fn exec_command_drops_field_codes() {
    assert_eq!(get_exec_command("firefox %U"), "firefox");
    assert_eq!(get_exec_command("\"/opt/app\" --flag %% %f"), "/opt/app --flag %");
    assert_eq!(get_exec_command("  run  "), "run");
    assert_eq!(get_exec_command("tail %"), "tail");
}

#[test]
fn remove_last_part_of_path() {
    assert_eq!(remove_last("/usr/share/icons/x.png"), "/usr/share/icons");
    assert_eq!(remove_last("file"), "");
    assert_eq!(remove_last("/top"), "");
}

#[test]
fn desktop_id_from_components() {
    let parts = vec![
        None,
        Some("usr".to_string()),
        Some("share".to_string()),
        Some("applications".to_string()),
        Some("kde".to_string()),
        Some("org.kde.foo.desktop".to_string()),
    ];
    assert_eq!(get_desktop_id(&parts), "kde-org.kde.foo.desktop");
    let direct = vec![Some("applications".to_string()), Some("firefox.desktop".to_string())];
    assert_eq!(get_desktop_id(&direct), "firefox.desktop");
    let none = vec![Some("home".to_string()), Some("a.desktop".to_string())];
    assert_eq!(get_desktop_id(&none), "");
}

#[test]
fn desktop_entry_with_action() {
    let text = "# comment\n[Desktop Entry]\nName=Firefox\nExec=firefox %U\nIcon=/usr/share/icons/firefox.png\nType=Application\n\n[Desktop Action new-window]\nName=New Window\nExec=firefox --new-window %u\n";
    let entries = desktop_entry_extracter(&lines(text), &"firefox.desktop".to_string(), &vec![]);
    assert_eq!(entries.len(), 2);
    let main = entries[0].as_ref().unwrap();
    assert!(main.is_primary);
    assert_eq!(main.name, "Firefox");
    assert_eq!(main.exec_comm, Some("firefox".to_string()));
    assert_eq!(main.image_path, Some("/usr/share/icons/firefox.png".to_string()));
    assert_eq!(main.desktop_file_id, "firefox.desktop");
    let action = entries[1].as_ref().unwrap();
    assert!(!action.is_primary);
    assert_eq!(action.name, "Firefox - New Window");
    assert_eq!(action.exec_comm, Some("firefox --new-window".to_string()));
}

#[test]
fn desktop_entry_icon_from_theme_table() {
    let text = "[Desktop Entry]\nName=Files\nIcon=folder\n";
    let icons = vec![("folder".to_string(), Some("/icons/folder.svg".to_string()))];
    assert_eq!(icon_names_to_resolve(&lines(text)), vec!["folder".to_string()]);
    let entries = desktop_entry_extracter(&lines(text), &"files.desktop".to_string(), &icons);
    assert_eq!(entries[0].as_ref().unwrap().image_path, Some("/icons/folder.svg".to_string()));
    let unknown = desktop_entry_extracter(&lines(text), &"files.desktop".to_string(), &vec![]);
    assert_eq!(unknown[0].as_ref().unwrap().image_path, None);
}

#[test]
fn hidden_entries_yield_none() {
    for extra in ["NoDisplay=true", "Hidden=true", "Type=Link"] {
        let text = format!("[Desktop Entry]\nName=Secret\n{extra}\n");
        let entries = desktop_entry_extracter(&lines(&text), &"s.desktop".to_string(), &vec![]);
        assert_eq!(entries.len(), 1);
        assert!(entries[0].is_none());
    }
}

#[test]
fn malformed_entries_are_errors() {
    let before = desktop_entry_error(&lines("Name=X\n[Desktop Entry]\n"), &"a".to_string(), &vec![]);
    assert_eq!(before, Some(DesktopEntryError::MainEntryNotFound));
    let no_sep = desktop_entry_error(&lines("[Desktop Entry]\nName\n"), &"a".to_string(), &vec![]);
    assert_eq!(no_sep, Some(DesktopEntryError::MissingSeparator));
    let no_name = desktop_entry_error(&lines("[Desktop Entry]\nExec=a\n"), &"a".to_string(), &vec![]);
    assert_eq!(no_name, Some(DesktopEntryError::MissingName));
    let good = desktop_entry_error(&lines("[Desktop Entry]\nName=A\n"), &"a".to_string(), &vec![]);
    assert_eq!(good, None);
}

#[test]
fn icon_names_skip_paths() {
    let text = "Icon=firefox\nIcon=/abs/path.png\nName=x\n";
    assert_eq!(icon_names_to_resolve(&lines(text)), vec!["firefox".to_string()]);
}

#[test]
fn theme_from_gsettings_output() {
    assert_eq!(theme_name_from_gsettings("'Adwaita'\n"), "Adwaita");
    assert_eq!(theme_name_from_gsettings("Papirus"), "Papirus");
}

#[test]
fn icon_directories() {
    assert_eq!(
        icon_search_dirs(Some("/home/u"), "/usr/share:/usr/local/share"),
        vec![
            "/home/u/.icons".to_string(),
            "/usr/share/icons/".to_string(),
            "/usr/local/share/icons/".to_string(),
            "/usr/share/pixmaps/".to_string()
        ]
    );
    assert!(icon_search_dirs(None, "/usr/share").is_empty());
}

#[test]
fn icon_plan_tries_theme_then_hicolor() {
    let dirs = vec!["a".to_string(), "b".to_string()];
    let plan = icon_search_plan(&dirs, "Papirus");
    let expected: Vec<(String, String)> = vec![
        ("a".into(), "Papirus".into()),
        ("b".into(), "Papirus".into()),
        ("a".into(), "hicolor".into()),
        ("b".into(), "hicolor".into()),
    ];
    assert_eq!(plan, expected);
}

#[test]
fn application_directories() {
    assert_eq!(
        app_data_dirs("/usr/share:/x"),
        vec!["/usr/share".to_string(), "/x".to_string(), "/home/ramayen/.local/share/".to_string()]
    );
}

#[test]
fn selector_lists_primary_and_all() {
    let sel = AppSelector {
        app_list: vec![app("Firefox", true), app("Firefox - New Window", false), app("Files", true)],
    };
    let primary: Vec<&str> = sel.get_primary().iter().map(|a| a.name.as_str()).collect();
    assert_eq!(primary, vec!["Firefox", "Files"]);
    assert_eq!(sel.get_all().len(), 3);
}

#[test]
fn selector_queries_use_fuzzy_ranking() {
    let sel = AppSelector {
        app_list: vec![app("Firefox", true), app("Files", true), app("Firefox - New Window", false)],
    };
    let best: Vec<&str> = sel.query_primary("FIRE", 1).iter().map(|a| a.name.as_str()).collect();
    assert_eq!(best, vec!["Firefox"]);
    let all: Vec<&str> = sel.query_all("fire", 2).iter().map(|a| a.name.as_str()).collect();
    assert_eq!(all, vec!["Firefox", "Firefox - New Window"]);
    assert_eq!(sel.query_primary("fire", 10).len(), 2);
    assert!(sel.query_all("fire", 0).is_empty());
}

#[test]
fn app_data_clone_is_equal() {
    let a = app("Files", true);
    let b = a.clone();
    assert_eq!(b.name, a.name);
    assert_eq!(b.is_primary, a.is_primary);
}

#[test]
fn queries_ignore_case() {
    let sel = AppSelector { app_list: vec![app("Firefox", true), app("FILES", true)] };
    let best: Vec<&str> = sel.query_primary("files", 1).iter().map(|a| a.name.as_str()).collect();
    assert_eq!(best, vec!["FILES"]);
    let all: Vec<&str> = sel.query_all("Files", 1).iter().map(|a| a.name.as_str()).collect();
    assert_eq!(all, vec!["FILES"]);
}

#[test]
fn query_case_does_not_matter() {
    let sel = AppSelector { app_list: vec![app("Firefox", true), app("Files", true)] };
    let upper: Vec<&str> = sel.query_all("FiLeS", 2).iter().map(|a| a.name.as_str()).collect();
    let lower: Vec<&str> = sel.query_all("files", 2).iter().map(|a| a.name.as_str()).collect();
    assert_eq!(upper, lower);
}
