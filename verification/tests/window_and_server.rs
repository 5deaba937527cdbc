use verge_config::logging::{has_prefix, NoModuleFilter, ShutdownGate, Type};
use verge_config::server::{
    check_singleton, pac_content_type, pac_script, route_request, shutdown_embedded_server, ServerRoute,
    SingletonAction,
};
use verge_config::window::{
    ShowStep, ToggleStep, WindowManager, WindowOperationResult, WindowProbe, WindowState,
};

fn probe(min: Option<bool>, vis: Option<bool>, foc: Option<bool>) -> Option<WindowProbe> {
    Some(WindowProbe { is_minimized: min, is_visible: vis, is_focused: foc })
}

#[test]
fn window_state_precedence() {
    assert_eq!(WindowManager::get_main_window_state(None), WindowState::NotExist);
    assert_eq!(
        WindowManager::get_main_window_state(probe(Some(true), Some(true), Some(true))),
        WindowState::Minimized
    );
    assert_eq!(
        WindowManager::get_main_window_state(probe(Some(false), Some(false), Some(true))),
        WindowState::Hidden
    );
    assert_eq!(
        WindowManager::get_main_window_state(probe(None, Some(true), Some(true))),
        WindowState::VisibleFocused
    );
    assert_eq!(
        WindowManager::get_main_window_state(probe(None, Some(true), None)),
        WindowState::VisibleUnfocused
    );
    assert_eq!(WindowManager::get_main_window_state(probe(None, None, None)), WindowState::Hidden);
}

#[test]
fn window_queries() {
    let w = probe(Some(true), Some(true), Some(false));
    assert!(WindowManager::is_main_window_minimized(w));
    assert!(!WindowManager::is_main_window_focused(w));
    assert!(WindowManager::is_main_window_visible(w));
    assert!(!WindowManager::is_main_window_visible(probe(None, Some(false), Some(true))));
    assert!(WindowManager::is_main_window_visible(probe(None, Some(true), Some(false))));
    assert!(!WindowManager::is_main_window_visible(None));
}

#[test]
fn show_steps() {
    assert_eq!(
        WindowManager::show_main_window(false, WindowState::Hidden),
        ShowStep::Done(WindowOperationResult::NoAction)
    );
    assert_eq!(
        WindowManager::show_main_window(true, WindowState::VisibleFocused),
        ShowStep::Done(WindowOperationResult::NoAction)
    );
    assert_eq!(WindowManager::show_main_window(true, WindowState::Minimized), ShowStep::RecheckThenActivate);
    assert_eq!(WindowManager::show_main_window(true, WindowState::NotExist), ShowStep::Create);
    assert_eq!(
        WindowManager::after_recheck(false, WindowState::Hidden),
        Some(WindowOperationResult::Failed)
    );
    assert_eq!(
        WindowManager::after_recheck(true, WindowState::VisibleFocused),
        Some(WindowOperationResult::NoAction)
    );
    assert_eq!(WindowManager::after_recheck(true, WindowState::VisibleUnfocused), None);
    assert_eq!(WindowManager::after_recheck(true, WindowState::Minimized), None);
}

#[test]
fn toggle_steps() {
    assert_eq!(
        WindowManager::toggle_main_window(false, WindowState::VisibleFocused),
        ToggleStep::Done(WindowOperationResult::NoAction)
    );
    assert_eq!(WindowManager::toggle_main_window(true, WindowState::VisibleUnfocused), ToggleStep::Hide);
    assert_eq!(WindowManager::toggle_main_window(true, WindowState::Hidden), ToggleStep::Activate);
    assert_eq!(WindowManager::toggle_main_window(true, WindowState::NotExist), ToggleStep::Create);
    assert_eq!(WindowManager::handle_not_exist_toggle(true), WindowOperationResult::Created);
    assert_eq!(WindowManager::handle_not_exist_toggle(false), WindowOperationResult::Failed);
}

#[test]
fn hide_activate_create_destroy() {
    assert_eq!(WindowManager::hide_main_window(Some(true)), WindowOperationResult::Hidden);
    assert_eq!(WindowManager::hide_main_window(Some(false)), WindowOperationResult::Failed);
    assert_eq!(WindowManager::hide_main_window(None), WindowOperationResult::Failed);
    assert_eq!(
        WindowManager::activate_existing_main_window(Some(WindowOperationResult::Shown)),
        WindowOperationResult::Shown
    );
    assert_eq!(WindowManager::activate_existing_main_window(None), WindowOperationResult::Failed);
    assert!(WindowManager::needs_unminimize(Some(true)));
    assert!(!WindowManager::needs_unminimize(None));
    assert_eq!(WindowManager::activate_window(None, true, true), WindowOperationResult::Shown);
    assert_eq!(WindowManager::activate_window(Some(true), true, true), WindowOperationResult::Shown);
    assert_eq!(WindowManager::activate_window(Some(false), true, true), WindowOperationResult::Failed);
    assert_eq!(WindowManager::activate_window(None, true, false), WindowOperationResult::Failed);
    assert!(WindowManager::create_window(true, true, WindowOperationResult::Shown));
    assert!(!WindowManager::create_window(false, true, WindowOperationResult::Shown));
    assert!(!WindowManager::create_window(true, true, WindowOperationResult::Failed));
    assert_eq!(WindowManager::destroy_main_window(true), WindowOperationResult::Destroyed);
    assert_eq!(WindowManager::destroy_main_window(false), WindowOperationResult::Failed);
}

#[test]
fn window_status_line() {
    assert_eq!(
        WindowManager::get_window_status_info(probe(Some(false), Some(true), Some(true))),
        "窗口状态: VisibleFocused | 可见: true | 有焦点: true | 最小化: false"
    );
    assert_eq!(
        WindowManager::get_window_status_info(probe(None, Some(true), Some(false))),
        "窗口状态: VisibleUnfocused | 可见: true | 有焦点: false | 最小化: false"
    );
    assert_eq!(
        WindowManager::get_window_status_info(None),
        "窗口状态: NotExist | 可见: false | 有焦点: false | 最小化: false"
    );
}

#[test]
fn pac_script_fills_port() {
    assert_eq!(pac_script(Some("PROXY 127.0.0.1:%mixed-port%"), Some(7897), 7890), "PROXY 127.0.0.1:7897");
    assert_eq!(pac_script(Some("%mixed-port%/%mixed-port%"), None, 7890), "7890/7890");
    let default = pac_script(None, Some(1234), 7890);
    assert!(default.starts_with("function FindProxyForURL(url, host) {"));
    assert!(default.contains("PROXY 127.0.0.1:1234; SOCKS5 127.0.0.1:1234; DIRECT;"));
    assert!(!default.contains("%mixed-port%"));
}

#[test]
fn singleton_decisions() {
    let none: Vec<String> = vec!["app".to_string()];
    assert!(matches!(check_singleton(false, 11235, &none), SingletonAction::Proceed));
    match check_singleton(true, 11235, &none) {
        SingletonAction::Exit(Some(u)) => assert_eq!(u, "http://127.0.0.1:11235/commands/visible"),
        _ => panic!("expected a visible request"),
    }
    let link = vec!["app".to_string(), "clash://install-config?url=x".to_string()];
    match check_singleton(true, 11235, &link) {
        SingletonAction::Exit(Some(u)) => assert_eq!(
            u,
            "http://127.0.0.1:11235/commands/scheme?param=clash://install-config?url=x"
        ),
        _ => panic!("expected a scheme request"),
    }
    let other = vec!["app".to_string(), "--flag".to_string()];
    assert!(matches!(check_singleton(true, 11235, &other), SingletonAction::Exit(None)));
}

#[test]
fn shutdown_signal_sent_once() {
    let mut slot = Some(5u8);
    assert_eq!(shutdown_embedded_server(&mut slot), Some(5));
    assert_eq!(slot, None);
    assert_eq!(shutdown_embedded_server(&mut slot), None);
}

#[test]
fn module_filter() {
    let blocked = ["hyper", "reqwest::connect"];
    let f = NoModuleFilter(&blocked);
    assert!(!f.filter(Some("hyper::client")));
    assert!(!f.filter(Some("reqwest::connect::http")));
    assert!(f.filter(Some("reqwest::async_impl")));
    assert!(f.filter(Some("app::core")));
    assert!(f.filter(None));
    assert!(has_prefix("abc", "ab"));
    assert!(!has_prefix("ab", "abc"));
}

#[test]
fn log_tags() {
    assert_eq!(Type::Cmd.tag(), "[Cmd]");
    assert_eq!(Type::SystemSignal.tag(), "[SystemSignal]");
    assert_eq!(Type::ClashVergeRev.tag(), "[ClashVergeRev]");
}

#[test]
fn cleanup_runs_once() {
    let mut gate = ShutdownGate::new();
    assert!(gate.on_signal());
    assert!(!gate.on_signal());
    assert!(!gate.on_signal());
    assert!(gate.cleaning_up);
}

#[test]
fn server_routes() {
    assert!(matches!(route_request("/commands/visible"), ServerRoute::Visible));
    assert!(matches!(route_request("/commands/visible?x=1"), ServerRoute::Visible));
    assert!(matches!(route_request("/commands/pac"), ServerRoute::Pac));
    match route_request("/commands/scheme?param=clash://install-config%3Furl%3Dx") {
        ServerRoute::Scheme(link) => assert_eq!(link, "clash://install-config?url=x"),
        _ => panic!("expected a scheme route"),
    }
    match route_request("/commands/scheme?from=tray&param=clash://x+y&url=1") {
        ServerRoute::Scheme(link) => assert_eq!(link, "clash://x y"),
        _ => panic!("expected a scheme route"),
    }
    assert!(matches!(route_request("/commands/scheme?param=a&param=b"), ServerRoute::NotFound));
    assert!(matches!(route_request("/commands/scheme"), ServerRoute::NotFound));
    assert!(matches!(route_request("/commands/scheme?other=1"), ServerRoute::NotFound));
    assert!(matches!(route_request("/commands/pacx"), ServerRoute::NotFound));
    assert!(matches!(route_request("/"), ServerRoute::NotFound));
    assert_eq!(pac_content_type(), "application/x-ns-proxy-autoconfig");
}
