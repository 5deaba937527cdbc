use verge_config::constants::{
    app_config_dir, clash_config, config_dir, core_dir, get_log_dir, icons_dir, join, logs_dir, profiles_dir,
    verge_config, DEFAULT_HTTP_PORT, DEFAULT_MIXED_PORT, DEFAULT_PORT, DEFAULT_SOCKS_PORT,
    SERVER_PORT,
};
use verge_config::schtasks::{get_startup_dir, get_task_user_id, task_xml_path, TaskError, TaskMode};

#[test]
fn join_inserts_one_separator() {
    assert_eq!(join("/home/u", "x"), "/home/u/x");
    assert_eq!(join("/home/u/", "x"), "/home/u/x");
    assert_eq!(join("", "x"), "x");
}

#[test]
fn application_directories() {
    let base = Some("/home/u/.config");
    assert_eq!(app_config_dir(base), "/home/u/.config/my-new-app");
    assert_eq!(profiles_dir(base), "/home/u/.config/my-new-app/profiles");
    assert_eq!(logs_dir(base), "/home/u/.config/my-new-app/logs");
    assert_eq!(core_dir(base), "/home/u/.config/my-new-app/core");
    assert_eq!(icons_dir(base), "/home/u/.config/my-new-app/icons");
    assert_eq!(verge_config(base), "/home/u/.config/my-new-app/verge.yaml");
    assert_eq!(clash_config(base), "/home/u/.config/my-new-app/config.yaml");
    assert_eq!(get_log_dir(base), logs_dir(base));
}

#[test]
fn application_directory_without_config_dir() {
    assert_eq!(app_config_dir(None), "./my-new-app");
    assert_eq!(verge_config(None), "./my-new-app/verge.yaml");
}

#[test]
fn default_ports() {
    assert_eq!(SERVER_PORT, 11235);
    assert_eq!(DEFAULT_PORT, 9090);
    assert_eq!(DEFAULT_SOCKS_PORT, 7891);
    assert_eq!(DEFAULT_HTTP_PORT, 7890);
    assert_eq!(DEFAULT_MIXED_PORT, 7892);
}

#[test]
fn task_mode_texts() {
    assert_eq!(TaskMode::User.name(), "Clash Verge");
    assert_eq!(TaskMode::Admin.name(), "Clash Verge (Admin)");
    assert_eq!(TaskMode::User.label(), "user");
    assert_eq!(TaskMode::Admin.label(), "admin");
    assert_eq!(TaskMode::User.xml_run_level(), "LeastPrivilege");
    assert_eq!(TaskMode::Admin.xml_run_level(), "HighestAvailable");
    assert_eq!(TaskMode::User.xml_file_name(), "clash-verge-task-user.xml");
    assert_eq!(TaskMode::Admin.xml_file_name(), "clash-verge-task-admin.xml");
}

#[test]
fn task_definition_path() {
    assert_eq!(task_xml_path(TaskMode::Admin, "C:/app"), "C:/app/tasks/clash-verge-task-admin.xml");
    assert_eq!(task_xml_path(TaskMode::User, "/opt/app/"), "/opt/app/tasks/clash-verge-task-user.xml");
}

#[test]
fn task_user_ids_from_names() {
    assert_eq!(get_task_user_id(Some(" alice "), Some(" CORP ")), Ok("CORP\\alice".to_string()));
    assert_eq!(get_task_user_id(Some("alice"), Some("  ")), Ok("alice".to_string()));
    assert_eq!(get_task_user_id(Some("alice"), None), Ok("alice".to_string()));
    assert_eq!(get_task_user_id(Some("   "), Some("CORP")), Err(TaskError::UserNameEmpty));
    assert_eq!(get_task_user_id(None, Some("CORP")), Err(TaskError::UserNameMissing));
}

#[test]
fn startup_folder() {
    assert_eq!(
        get_startup_dir("C:/Users/a/AppData/Roaming"),
        "C:/Users/a/AppData/Roaming/Microsoft/Windows/Start Menu/Programs/Startup"
    );
}

#[test]
fn user_config_dir_choice() {
    assert_eq!(config_dir(Some("/xdg"), Some("/home/u")), Some("/xdg".to_string()));
    assert_eq!(config_dir(None, Some("/home/u")), Some("/home/u/.config".to_string()));
    assert_eq!(config_dir(None, None), None);
}
