//! Application settings: the defaults of a fresh installation, patching, and
//! the derived switches and levels.

use vstd::prelude::*;
use crate::prfitem::{clone_opt_string, opt_view, or_else};
use crate::text::str_eq;

verus! {

/// The JSON value type of `serde_json`, carried through settings unread.
#[verifier::external_type_specification]
#[verifier::external_body]
pub struct ExJsonValue(serde_json::Value);

/// `serde_json::Value::clone` (derived): an equal copy of the value.
#[verifier::external_body]
fn clone_json(v: &serde_json::Value) -> (r: serde_json::Value)
    ensures
        r == *v,
{
    v.clone()
}

/// Copies an optional JSON value.
pub fn clone_opt_json(o: &Option<serde_json::Value>) -> (r: Option<serde_json::Value>)
    ensures
        r == *o,
{
    match o {
        Some(v) => Some(clone_json(v)),
        None => None,
    }
}

/// Two optional lists are both absent or hold the same elements.
pub open spec fn opt_vec_eq<T>(a: Option<Vec<T>>, b: Option<Vec<T>>) -> bool {
    &&& (a is Some <==> b is Some)
    &&& (a matches Some(x) ==> (b matches Some(y) && x@ == y@))
}

/// Copies a list of strings.
pub fn clone_strings(v: &Vec<String>) -> (r: Vec<String>)
    ensures
        r@ == v@,
{
    let mut r: Vec<String> = Vec::new();
    let mut i: usize = 0;
    while i < v.len()
        invariant
            i <= v@.len(),
            r@ == v@.take(i as int),
        decreases v@.len() - i,
    {
        r.push(v[i].clone());
        assert(v@.take(i as int).push(v@[i as int]) =~= v@.take(i + 1));
        i = i + 1;
    }
    assert(v@.take(v@.len() as int) =~= v@);
    r
}

/// Copies an optional list of strings.
pub fn clone_opt_strings(o: &Option<Vec<String>>) -> (r: Option<Vec<String>>)
    ensures
        opt_vec_eq(r, *o),
{
    match o {
        Some(v) => Some(clone_strings(v)),
        None => None,
    }
}

/// A latency-test target.
pub struct IVergeTestItem {
    pub uid: Option<String>,
    pub name: Option<String>,
    pub url: Option<String>,
    pub icon: Option<String>,
}

impl IVergeTestItem {
    pub fn duplicate(&self) -> (r: Self)
        ensures
            r == *self,
    {
        IVergeTestItem {
            uid: clone_opt_string(&self.uid),
            name: clone_opt_string(&self.name),
            url: clone_opt_string(&self.url),
            icon: clone_opt_string(&self.icon),
        }
    }
}

/// Copies an optional list of latency-test targets.
pub fn clone_opt_test_list(o: &Option<Vec<IVergeTestItem>>) -> (r: Option<Vec<IVergeTestItem>>)
    ensures
        opt_vec_eq(r, *o),
{
    match o {
        Some(v) => {
            let mut r: Vec<IVergeTestItem> = Vec::new();
            let mut i: usize = 0;
            while i < v.len()
                invariant
                    i <= v@.len(),
                    r@ == v@.take(i as int),
                decreases v@.len() - i,
            {
                r.push(v[i].duplicate());
                assert(v@.take(i as int).push(v@[i as int]) =~= v@.take(i + 1));
                i = i + 1;
            }
            assert(v@.take(v@.len() as int) =~= v@);
            Some(r)
        },
        None => None,
    }
}

/// Interface colours and fonts.
pub struct IVergeTheme {
    pub primary_color: Option<String>,
    pub secondary_color: Option<String>,
    pub primary_text: Option<String>,
    pub secondary_text: Option<String>,
    pub info_color: Option<String>,
    pub error_color: Option<String>,
    pub warning_color: Option<String>,
    pub success_color: Option<String>,
    pub font_family: Option<String>,
    pub css_injection: Option<String>,
}

impl IVergeTheme {
    pub fn duplicate(&self) -> (r: Self)
        ensures
            r == *self,
    {
        IVergeTheme {
            primary_color: clone_opt_string(&self.primary_color),
            secondary_color: clone_opt_string(&self.secondary_color),
            primary_text: clone_opt_string(&self.primary_text),
            secondary_text: clone_opt_string(&self.secondary_text),
            info_color: clone_opt_string(&self.info_color),
            error_color: clone_opt_string(&self.error_color),
            warning_color: clone_opt_string(&self.warning_color),
            success_color: clone_opt_string(&self.success_color),
            font_family: clone_opt_string(&self.font_family),
            css_injection: clone_opt_string(&self.css_injection),
        }
    }
}

/// Copies an optional theme.
pub fn clone_opt_theme(o: &Option<IVergeTheme>) -> (r: Option<IVergeTheme>)
    ensures
        r == *o,
{
    match o {
        Some(t) => Some(t.duplicate()),
        None => None,
    }
}

/// Takes `src` where it is set.
pub fn patch_opt_copy<T: Copy>(dst: &mut Option<T>, src: &Option<T>)
    ensures
        *final(dst) == or_else(*src, *old(dst)),
{
    if src.is_some() {
        *dst = *src;
    }
}

/// Takes `src` where it is set.
pub fn patch_opt_string(dst: &mut Option<String>, src: &Option<String>)
    ensures
        *final(dst) == or_else(*src, *old(dst)),
{
    if src.is_some() {
        *dst = clone_opt_string(src);
    }
}

/// Takes `src` where it is set.
pub fn patch_opt_strings(dst: &mut Option<Vec<String>>, src: &Option<Vec<String>>)
    ensures
        opt_vec_eq(*final(dst), if src is Some { *src } else { *old(dst) }),
{
    if src.is_some() {
        *dst = clone_opt_strings(src);
    } else {
        assert(opt_vec_eq(*dst, *dst));
    }
}

/// Takes `src` where it is set.
pub fn patch_opt_test_list(dst: &mut Option<Vec<IVergeTestItem>>, src: &Option<Vec<IVergeTestItem>>)
    ensures
        opt_vec_eq(*final(dst), if src is Some { *src } else { *old(dst) }),
{
    if src.is_some() {
        *dst = clone_opt_test_list(src);
    } else {
        assert(opt_vec_eq(*dst, *dst));
    }
}

/// Takes `src` where it is set.
pub fn patch_opt_theme(dst: &mut Option<IVergeTheme>, src: &Option<IVergeTheme>)
    ensures
        *final(dst) == or_else(*src, *old(dst)),
{
    if src.is_some() {
        *dst = clone_opt_theme(src);
    }
}

/// Takes `src` where it is set.
pub fn patch_opt_json(dst: &mut Option<serde_json::Value>, src: &Option<serde_json::Value>)
    ensures
        *final(dst) == or_else(*src, *old(dst)),
{
    if src.is_some() {
        *dst = clone_opt_json(src);
    }
}

/// The proxy auto-configuration script used when none is configured;
/// `%mixed-port%` stands for the mixed proxy port.
pub fn default_pac() -> (r: &'static str)
    ensures
        r@ == default_pac_text(),
{
    "function FindProxyForURL(url, host) {\n  return \"PROXY 127.0.0.1:%mixed-port%; SOCKS5 127.0.0.1:%mixed-port%; DIRECT;\";\n}\n"
}

/// The text of the default proxy auto-configuration script.
pub open spec fn default_pac_text() -> Seq<char> {
    "function FindProxyForURL(url, host) {\n  return \"PROXY 127.0.0.1:%mixed-port%; SOCKS5 127.0.0.1:%mixed-port%; DIRECT;\";\n}\n"@
}

/// The log levels of the application log.
#[derive(Debug, Clone, Copy, PartialEq, Eq, Structural)]
pub enum LogLevel {
    Off,
    Error,
    Warn,
    Info,
    Debug,
    Trace,
}

/// A character in ASCII lower case.
pub open spec fn ascii_lower_char(c: char) -> char {
    if 'A' <= c && c <= 'Z' {
        ((c as u32) + 32) as char
    } else {
        c
    }
}

/// A string in ASCII lower case.
pub open spec fn ascii_lower(s: Seq<char>) -> Seq<char> {
    s.map_values(|c: char| ascii_lower_char(c))
}

/// Lower-cases the ASCII letters of a string.
pub fn to_ascii_lower(s: &str) -> (r: String)
    ensures
        r@ == ascii_lower(s@),
{
    let v = crate::text::chars_of(s);
    let mut out: Vec<char> = Vec::new();
    let mut i: usize = 0;
    while i < v.len()
        invariant
            i <= v@.len(),
            v@ == s@,
            out@ == ascii_lower(v@.take(i as int)),
        decreases v@.len() - i,
    {
        let c = v[i];
        let l = if 'A' <= c && c <= 'Z' {
            let b = (c as u8) + 32;
            b as char
        } else {
            c
        };
        out.push(l);
        assert(ascii_lower(v@.take(i + 1)) =~= ascii_lower(v@.take(i as int)).push(l));
        i = i + 1;
    }
    assert(v@.take(v@.len() as int) =~= v@);
    crate::text::string_from_chars(out.as_slice())
}

/// The log level that a configured level name selects (names are matched
/// without regard to case; anything else selects `Info`).
pub open spec fn log_level_of(name: Option<Seq<char>>) -> LogLevel {
    match name {
        None => LogLevel::Info,
        Some(n) => {
            let l = ascii_lower(n);
            if l == "silent"@ {
                LogLevel::Off
            } else if l == "error"@ {
                LogLevel::Error
            } else if l == "warn"@ {
                LogLevel::Warn
            } else if l == "info"@ {
                LogLevel::Info
            } else if l == "debug"@ {
                LogLevel::Debug
            } else if l == "trace"@ {
                LogLevel::Trace
            } else {
                LogLevel::Info
            }
        },
    }
}

/// The core names that the settings accept.
pub open spec fn is_valid_core(core: Seq<char>) -> bool {
    core == "verge-mihomo"@ || core == "verge-mihomo-alpha"@
}

/// Application settings. Every setting is optional; an unset one falls
/// back to a default where it is read.
pub struct IVerge {
    pub theme_mode: Option<String>,
    pub language: Option<String>,
    pub tray_event: Option<String>,
    pub env_type: Option<String>,
    pub start_page: Option<String>,
    pub startup_script: Option<String>,
    pub traffic_graph: Option<bool>,
    pub enable_memory_usage: Option<bool>,
    pub enable_group_icon: Option<bool>,
    pub common_tray_icon: Option<bool>,
    pub menu_icon: Option<String>,
    pub menu_order: Option<Vec<String>>,
    pub toast_position: Option<String>,
    pub collapse_navbar: Option<bool>,
    pub sysproxy_tray_icon: Option<bool>,
    pub tun_tray_icon: Option<bool>,
    pub enable_tun_mode: Option<bool>,
    pub enable_auto_launch: Option<bool>,
    pub enable_system_proxy: Option<bool>,
    pub enable_silent_start: Option<bool>,
    pub enable_proxy_guard: Option<bool>,
    pub enable_dns_settings: Option<bool>,
    pub use_default_bypass: Option<bool>,
    pub system_proxy_bypass: Option<String>,
    pub proxy_guard_duration: Option<u64>,
    pub proxy_auto_config: Option<bool>,
    pub pac_file_content: Option<String>,
    pub proxy_host: Option<String>,
    pub theme_setting: Option<IVergeTheme>,
    pub web_ui_list: Option<Vec<String>>,
    pub clash_core: Option<String>,
    pub hotkeys: Option<Vec<String>>,
    pub enable_global_hotkey: Option<bool>,
    pub home_cards: Option<serde_json::Value>,
    pub auto_close_connection: Option<bool>,
    pub enable_auto_check_update: Option<bool>,
    pub default_latency_test: Option<String>,
    pub default_latency_timeout: Option<i16>,
    pub enable_auto_delay_detection: Option<bool>,
    pub enable_builtin_enhanced: Option<bool>,
    pub proxy_layout_column: Option<u8>,
    pub test_list: Option<Vec<IVergeTestItem>>,
    pub auto_log_clean: Option<i32>,
    pub enable_auto_backup_scheduled: Option<bool>,
    pub auto_backup_interval_hours: Option<u64>,
    pub auto_backup_on_change: Option<bool>,
    pub verge_redir_port: Option<u16>,
    pub verge_redir_enabled: Option<bool>,
    pub verge_tproxy_port: Option<u16>,
    pub verge_tproxy_enabled: Option<bool>,
    pub verge_mixed_port: Option<u16>,
    pub verge_socks_port: Option<u16>,
    pub verge_socks_enabled: Option<bool>,
    pub verge_port: Option<u16>,
    pub verge_http_enabled: Option<bool>,
    pub webdav_url: Option<String>,
    pub webdav_username: Option<String>,
    pub webdav_password: Option<String>,
    pub enable_tray_speed: Option<bool>,
    pub tray_proxy_groups_display_mode: Option<String>,
    pub tray_inline_outbound_modes: Option<bool>,
    pub enable_auto_light_weight_mode: Option<bool>,
    pub auto_light_weight_minutes: Option<u64>,
    pub enable_hover_jump_navigator: Option<bool>,
    pub hover_jump_navigator_delay: Option<u64>,
    pub enable_external_controller: Option<bool>,
    pub app_log_level: Option<String>,
    pub app_log_max_size: Option<u64>,
    pub app_log_max_count: Option<usize>,
    pub enable_auto_backup_schedule: Option<bool>,
    pub notice_position: Option<String>,
    pub clash_core_path: Option<String>,
}

/// `new` is `old` with every setting that `patch` sets and that patching
/// covers taken from `patch`; the toast position, the scheduled-backup
/// switch and the core path are never patched.
pub open spec fn is_patched_verge(new: IVerge, old: IVerge, patch: IVerge) -> bool {
    &&& new.theme_mode == or_else(patch.theme_mode, old.theme_mode)
    &&& new.language == or_else(patch.language, old.language)
    &&& new.tray_event == or_else(patch.tray_event, old.tray_event)
    &&& new.env_type == or_else(patch.env_type, old.env_type)
    &&& new.start_page == or_else(patch.start_page, old.start_page)
    &&& new.startup_script == or_else(patch.startup_script, old.startup_script)
    &&& new.traffic_graph == or_else(patch.traffic_graph, old.traffic_graph)
    &&& new.enable_memory_usage == or_else(patch.enable_memory_usage, old.enable_memory_usage)
    &&& new.enable_group_icon == or_else(patch.enable_group_icon, old.enable_group_icon)
    &&& new.common_tray_icon == or_else(patch.common_tray_icon, old.common_tray_icon)
    &&& new.menu_icon == or_else(patch.menu_icon, old.menu_icon)
    &&& opt_vec_eq(new.menu_order, if patch.menu_order is Some { patch.menu_order } else { old.menu_order })
    &&& new.toast_position == old.toast_position
    &&& new.collapse_navbar == or_else(patch.collapse_navbar, old.collapse_navbar)
    &&& new.sysproxy_tray_icon == or_else(patch.sysproxy_tray_icon, old.sysproxy_tray_icon)
    &&& new.tun_tray_icon == or_else(patch.tun_tray_icon, old.tun_tray_icon)
    &&& new.enable_tun_mode == or_else(patch.enable_tun_mode, old.enable_tun_mode)
    &&& new.enable_auto_launch == or_else(patch.enable_auto_launch, old.enable_auto_launch)
    &&& new.enable_system_proxy == or_else(patch.enable_system_proxy, old.enable_system_proxy)
    &&& new.enable_silent_start == or_else(patch.enable_silent_start, old.enable_silent_start)
    &&& new.enable_proxy_guard == or_else(patch.enable_proxy_guard, old.enable_proxy_guard)
    &&& new.enable_dns_settings == or_else(patch.enable_dns_settings, old.enable_dns_settings)
    &&& new.use_default_bypass == or_else(patch.use_default_bypass, old.use_default_bypass)
    &&& new.system_proxy_bypass == or_else(patch.system_proxy_bypass, old.system_proxy_bypass)
    &&& new.proxy_guard_duration == or_else(patch.proxy_guard_duration, old.proxy_guard_duration)
    &&& new.proxy_auto_config == or_else(patch.proxy_auto_config, old.proxy_auto_config)
    &&& new.pac_file_content == or_else(patch.pac_file_content, old.pac_file_content)
    &&& new.proxy_host == or_else(patch.proxy_host, old.proxy_host)
    &&& new.theme_setting == or_else(patch.theme_setting, old.theme_setting)
    &&& opt_vec_eq(new.web_ui_list, if patch.web_ui_list is Some { patch.web_ui_list } else { old.web_ui_list })
    &&& new.clash_core == or_else(patch.clash_core, old.clash_core)
    &&& opt_vec_eq(new.hotkeys, if patch.hotkeys is Some { patch.hotkeys } else { old.hotkeys })
    &&& new.enable_global_hotkey == or_else(patch.enable_global_hotkey, old.enable_global_hotkey)
    &&& new.home_cards == or_else(patch.home_cards, old.home_cards)
    &&& new.auto_close_connection == or_else(patch.auto_close_connection, old.auto_close_connection)
    &&& new.enable_auto_check_update == or_else(patch.enable_auto_check_update, old.enable_auto_check_update)
    &&& new.default_latency_test == or_else(patch.default_latency_test, old.default_latency_test)
    &&& new.default_latency_timeout == or_else(patch.default_latency_timeout, old.default_latency_timeout)
    &&& new.enable_auto_delay_detection == or_else(patch.enable_auto_delay_detection, old.enable_auto_delay_detection)
    &&& new.enable_builtin_enhanced == or_else(patch.enable_builtin_enhanced, old.enable_builtin_enhanced)
    &&& new.proxy_layout_column == or_else(patch.proxy_layout_column, old.proxy_layout_column)
    &&& opt_vec_eq(new.test_list, if patch.test_list is Some { patch.test_list } else { old.test_list })
    &&& new.auto_log_clean == or_else(patch.auto_log_clean, old.auto_log_clean)
    &&& new.enable_auto_backup_scheduled == old.enable_auto_backup_scheduled
    &&& new.auto_backup_interval_hours == or_else(patch.auto_backup_interval_hours, old.auto_backup_interval_hours)
    &&& new.auto_backup_on_change == or_else(patch.auto_backup_on_change, old.auto_backup_on_change)
    &&& new.verge_redir_port == or_else(patch.verge_redir_port, old.verge_redir_port)
    &&& new.verge_redir_enabled == or_else(patch.verge_redir_enabled, old.verge_redir_enabled)
    &&& new.verge_tproxy_port == or_else(patch.verge_tproxy_port, old.verge_tproxy_port)
    &&& new.verge_tproxy_enabled == or_else(patch.verge_tproxy_enabled, old.verge_tproxy_enabled)
    &&& new.verge_mixed_port == or_else(patch.verge_mixed_port, old.verge_mixed_port)
    &&& new.verge_socks_port == or_else(patch.verge_socks_port, old.verge_socks_port)
    &&& new.verge_socks_enabled == or_else(patch.verge_socks_enabled, old.verge_socks_enabled)
    &&& new.verge_port == or_else(patch.verge_port, old.verge_port)
    &&& new.verge_http_enabled == or_else(patch.verge_http_enabled, old.verge_http_enabled)
    &&& new.webdav_url == or_else(patch.webdav_url, old.webdav_url)
    &&& new.webdav_username == or_else(patch.webdav_username, old.webdav_username)
    &&& new.webdav_password == or_else(patch.webdav_password, old.webdav_password)
    &&& new.enable_tray_speed == or_else(patch.enable_tray_speed, old.enable_tray_speed)
    &&& new.tray_proxy_groups_display_mode == or_else(patch.tray_proxy_groups_display_mode, old.tray_proxy_groups_display_mode)
    &&& new.tray_inline_outbound_modes == or_else(patch.tray_inline_outbound_modes, old.tray_inline_outbound_modes)
    &&& new.enable_auto_light_weight_mode == or_else(patch.enable_auto_light_weight_mode, old.enable_auto_light_weight_mode)
    &&& new.auto_light_weight_minutes == or_else(patch.auto_light_weight_minutes, old.auto_light_weight_minutes)
    &&& new.enable_hover_jump_navigator == or_else(patch.enable_hover_jump_navigator, old.enable_hover_jump_navigator)
    &&& new.hover_jump_navigator_delay == or_else(patch.hover_jump_navigator_delay, old.hover_jump_navigator_delay)
    &&& new.enable_external_controller == or_else(patch.enable_external_controller, old.enable_external_controller)
    &&& new.app_log_level == or_else(patch.app_log_level, old.app_log_level)
    &&& new.app_log_max_size == or_else(patch.app_log_max_size, old.app_log_max_size)
    &&& new.app_log_max_count == or_else(patch.app_log_max_count, old.app_log_max_count)
    &&& new.enable_auto_backup_schedule == or_else(patch.enable_auto_backup_schedule, old.enable_auto_backup_schedule)
    &&& new.notice_position == or_else(patch.notice_position, old.notice_position)
    &&& new.clash_core_path == old.clash_core_path
}

/// The settings a fresh installation starts from (the values for Linux),
/// with `language` as the interface language.
pub open spec fn is_template(t: IVerge, language: Seq<char>) -> bool {
    &&& opt_view(t.theme_mode) == Some("system"@)
    &&& opt_view(t.language) == Some(language)
    &&& t.tray_event is None
    &&& opt_view(t.env_type) == Some("bash"@)
    &&& opt_view(t.start_page) == Some("/"@)
    &&& t.startup_script is None
    &&& t.traffic_graph == Some(true)
    &&& t.enable_memory_usage == Some(true)
    &&& t.enable_group_icon == Some(true)
    &&& t.common_tray_icon == Some(false)
    &&& opt_view(t.menu_icon) == Some("monochrome"@)
    &&& t.menu_order is None
    &&& t.toast_position is None
    &&& t.collapse_navbar == Some(false)
    &&& t.sysproxy_tray_icon == Some(false)
    &&& t.tun_tray_icon == Some(false)
    &&& t.enable_tun_mode is None
    &&& t.enable_auto_launch == Some(false)
    &&& t.enable_system_proxy == Some(false)
    &&& t.enable_silent_start == Some(false)
    &&& t.enable_proxy_guard == Some(false)
    &&& t.enable_dns_settings == Some(false)
    &&& t.use_default_bypass == Some(true)
    &&& t.system_proxy_bypass is None
    &&& t.proxy_guard_duration == Some(30u64)
    &&& t.proxy_auto_config == Some(false)
    &&& opt_view(t.pac_file_content) == Some(default_pac_text())
    &&& opt_view(t.proxy_host) == Some("127.0.0.1"@)
    &&& t.theme_setting is None
    &&& t.web_ui_list is None
    &&& opt_view(t.clash_core) == Some("verge-mihomo"@)
    &&& t.hotkeys is None
    &&& t.enable_global_hotkey == Some(true)
    &&& t.home_cards is None
    &&& t.auto_close_connection == Some(true)
    &&& t.enable_auto_check_update == Some(true)
    &&& t.default_latency_test is None
    &&& t.default_latency_timeout is None
    &&& t.enable_auto_delay_detection is None
    &&& t.enable_builtin_enhanced == Some(true)
    &&& t.proxy_layout_column is None
    &&& t.test_list is None
    &&& t.auto_log_clean == Some(2i32)
    &&& t.enable_auto_backup_scheduled is None
    &&& t.auto_backup_interval_hours == Some(24u64)
    &&& t.auto_backup_on_change == Some(true)
    &&& t.verge_redir_port == Some(7895u16)
    &&& t.verge_redir_enabled is None
    &&& t.verge_tproxy_port == Some(7896u16)
    &&& t.verge_tproxy_enabled == Some(false)
    &&& t.verge_mixed_port == Some(7897u16)
    &&& t.verge_socks_port == Some(7898u16)
    &&& t.verge_socks_enabled == Some(false)
    &&& t.verge_port == Some(7899u16)
    &&& t.verge_http_enabled == Some(false)
    &&& t.webdav_url is None
    &&& t.webdav_username is None
    &&& t.webdav_password is None
    &&& t.enable_tray_speed == Some(false)
    &&& opt_view(t.tray_proxy_groups_display_mode) == Some("default"@)
    &&& t.tray_inline_outbound_modes == Some(false)
    &&& t.enable_auto_light_weight_mode == Some(false)
    &&& t.auto_light_weight_minutes == Some(10u64)
    &&& t.enable_hover_jump_navigator == Some(true)
    &&& t.hover_jump_navigator_delay == Some(280u64)
    &&& t.enable_external_controller == Some(false)
    &&& t.app_log_level is None
    &&& t.app_log_max_size == Some(128u64)
    &&& t.app_log_max_count == Some(8usize)
    &&& t.enable_auto_backup_schedule == Some(false)
    &&& opt_view(t.notice_position) == Some("top-right"@)
    &&& t.clash_core_path is None
}

/// Two settings agree on every field (lists by their elements).
pub open spec fn same_verge(a: IVerge, b: IVerge) -> bool {
    &&& a.theme_mode == b.theme_mode
    &&& a.language == b.language
    &&& a.tray_event == b.tray_event
    &&& a.env_type == b.env_type
    &&& a.start_page == b.start_page
    &&& a.startup_script == b.startup_script
    &&& a.traffic_graph == b.traffic_graph
    &&& a.enable_memory_usage == b.enable_memory_usage
    &&& a.enable_group_icon == b.enable_group_icon
    &&& a.common_tray_icon == b.common_tray_icon
    &&& a.menu_icon == b.menu_icon
    &&& opt_vec_eq(a.menu_order, b.menu_order)
    &&& a.toast_position == b.toast_position
    &&& a.collapse_navbar == b.collapse_navbar
    &&& a.sysproxy_tray_icon == b.sysproxy_tray_icon
    &&& a.tun_tray_icon == b.tun_tray_icon
    &&& a.enable_tun_mode == b.enable_tun_mode
    &&& a.enable_auto_launch == b.enable_auto_launch
    &&& a.enable_system_proxy == b.enable_system_proxy
    &&& a.enable_silent_start == b.enable_silent_start
    &&& a.enable_proxy_guard == b.enable_proxy_guard
    &&& a.enable_dns_settings == b.enable_dns_settings
    &&& a.use_default_bypass == b.use_default_bypass
    &&& a.system_proxy_bypass == b.system_proxy_bypass
    &&& a.proxy_guard_duration == b.proxy_guard_duration
    &&& a.proxy_auto_config == b.proxy_auto_config
    &&& a.pac_file_content == b.pac_file_content
    &&& a.proxy_host == b.proxy_host
    &&& a.theme_setting == b.theme_setting
    &&& opt_vec_eq(a.web_ui_list, b.web_ui_list)
    &&& a.clash_core == b.clash_core
    &&& opt_vec_eq(a.hotkeys, b.hotkeys)
    &&& a.enable_global_hotkey == b.enable_global_hotkey
    &&& a.home_cards == b.home_cards
    &&& a.auto_close_connection == b.auto_close_connection
    &&& a.enable_auto_check_update == b.enable_auto_check_update
    &&& a.default_latency_test == b.default_latency_test
    &&& a.default_latency_timeout == b.default_latency_timeout
    &&& a.enable_auto_delay_detection == b.enable_auto_delay_detection
    &&& a.enable_builtin_enhanced == b.enable_builtin_enhanced
    &&& a.proxy_layout_column == b.proxy_layout_column
    &&& opt_vec_eq(a.test_list, b.test_list)
    &&& a.auto_log_clean == b.auto_log_clean
    &&& a.enable_auto_backup_scheduled == b.enable_auto_backup_scheduled
    &&& a.auto_backup_interval_hours == b.auto_backup_interval_hours
    &&& a.auto_backup_on_change == b.auto_backup_on_change
    &&& a.verge_redir_port == b.verge_redir_port
    &&& a.verge_redir_enabled == b.verge_redir_enabled
    &&& a.verge_tproxy_port == b.verge_tproxy_port
    &&& a.verge_tproxy_enabled == b.verge_tproxy_enabled
    &&& a.verge_mixed_port == b.verge_mixed_port
    &&& a.verge_socks_port == b.verge_socks_port
    &&& a.verge_socks_enabled == b.verge_socks_enabled
    &&& a.verge_port == b.verge_port
    &&& a.verge_http_enabled == b.verge_http_enabled
    &&& a.webdav_url == b.webdav_url
    &&& a.webdav_username == b.webdav_username
    &&& a.webdav_password == b.webdav_password
    &&& a.enable_tray_speed == b.enable_tray_speed
    &&& a.tray_proxy_groups_display_mode == b.tray_proxy_groups_display_mode
    &&& a.tray_inline_outbound_modes == b.tray_inline_outbound_modes
    &&& a.enable_auto_light_weight_mode == b.enable_auto_light_weight_mode
    &&& a.auto_light_weight_minutes == b.auto_light_weight_minutes
    &&& a.enable_hover_jump_navigator == b.enable_hover_jump_navigator
    &&& a.hover_jump_navigator_delay == b.hover_jump_navigator_delay
    &&& a.enable_external_controller == b.enable_external_controller
    &&& a.app_log_level == b.app_log_level
    &&& a.app_log_max_size == b.app_log_max_size
    &&& a.app_log_max_count == b.app_log_max_count
    &&& a.enable_auto_backup_schedule == b.enable_auto_backup_schedule
    &&& a.notice_position == b.notice_position
    &&& a.clash_core_path == b.clash_core_path
}

/// A patch that sets nothing.
pub open spec fn is_empty_patch(p: IVerge) -> bool {
    &&& p.theme_mode is None
    &&& p.language is None
    &&& p.tray_event is None
    &&& p.env_type is None
    &&& p.start_page is None
    &&& p.startup_script is None
    &&& p.traffic_graph is None
    &&& p.enable_memory_usage is None
    &&& p.enable_group_icon is None
    &&& p.common_tray_icon is None
    &&& p.menu_icon is None
    &&& p.menu_order is None
    &&& p.toast_position is None
    &&& p.collapse_navbar is None
    &&& p.sysproxy_tray_icon is None
    &&& p.tun_tray_icon is None
    &&& p.enable_tun_mode is None
    &&& p.enable_auto_launch is None
    &&& p.enable_system_proxy is None
    &&& p.enable_silent_start is None
    &&& p.enable_proxy_guard is None
    &&& p.enable_dns_settings is None
    &&& p.use_default_bypass is None
    &&& p.system_proxy_bypass is None
    &&& p.proxy_guard_duration is None
    &&& p.proxy_auto_config is None
    &&& p.pac_file_content is None
    &&& p.proxy_host is None
    &&& p.theme_setting is None
    &&& p.web_ui_list is None
    &&& p.clash_core is None
    &&& p.hotkeys is None
    &&& p.enable_global_hotkey is None
    &&& p.home_cards is None
    &&& p.auto_close_connection is None
    &&& p.enable_auto_check_update is None
    &&& p.default_latency_test is None
    &&& p.default_latency_timeout is None
    &&& p.enable_auto_delay_detection is None
    &&& p.enable_builtin_enhanced is None
    &&& p.proxy_layout_column is None
    &&& p.test_list is None
    &&& p.auto_log_clean is None
    &&& p.enable_auto_backup_scheduled is None
    &&& p.auto_backup_interval_hours is None
    &&& p.auto_backup_on_change is None
    &&& p.verge_redir_port is None
    &&& p.verge_redir_enabled is None
    &&& p.verge_tproxy_port is None
    &&& p.verge_tproxy_enabled is None
    &&& p.verge_mixed_port is None
    &&& p.verge_socks_port is None
    &&& p.verge_socks_enabled is None
    &&& p.verge_port is None
    &&& p.verge_http_enabled is None
    &&& p.webdav_url is None
    &&& p.webdav_username is None
    &&& p.webdav_password is None
    &&& p.enable_tray_speed is None
    &&& p.tray_proxy_groups_display_mode is None
    &&& p.tray_inline_outbound_modes is None
    &&& p.enable_auto_light_weight_mode is None
    &&& p.auto_light_weight_minutes is None
    &&& p.enable_hover_jump_navigator is None
    &&& p.hover_jump_navigator_delay is None
    &&& p.enable_external_controller is None
    &&& p.app_log_level is None
    &&& p.app_log_max_size is None
    &&& p.app_log_max_count is None
    &&& p.enable_auto_backup_schedule is None
    &&& p.notice_position is None
    &&& p.clash_core_path is None
}

/// Patching with a patch that sets nothing changes no setting.
pub proof fn law_empty_patch_changes_nothing(new: IVerge, old: IVerge, patch: IVerge)
    requires
        is_empty_patch(patch),
        is_patched_verge(new, old, patch),
    ensures
        same_verge(new, old),
{
}

/// Patching twice with the same patch gives what patching once gives.
pub proof fn law_patch_idempotent(old: IVerge, once: IVerge, twice: IVerge, patch: IVerge)
    requires
        is_patched_verge(once, old, patch),
        is_patched_verge(twice, once, patch),
    ensures
        same_verge(twice, once),
{
}

/// Every setting that patching covers is taken from the patch when the patch
/// sets it and kept otherwise; the toast position, the scheduled-backup switch
/// and the core path stay as they were.
pub proof fn law_patch_sets_each_setting(new: IVerge, old: IVerge, patch: IVerge)
    requires
        is_patched_verge(new, old, patch),
    ensures
        patch.theme_mode is Some ==> new.theme_mode == patch.theme_mode,
        patch.theme_mode is None ==> new.theme_mode == old.theme_mode,
        patch.language is Some ==> new.language == patch.language,
        patch.language is None ==> new.language == old.language,
        patch.tray_event is Some ==> new.tray_event == patch.tray_event,
        patch.tray_event is None ==> new.tray_event == old.tray_event,
        patch.env_type is Some ==> new.env_type == patch.env_type,
        patch.env_type is None ==> new.env_type == old.env_type,
        patch.start_page is Some ==> new.start_page == patch.start_page,
        patch.start_page is None ==> new.start_page == old.start_page,
        patch.startup_script is Some ==> new.startup_script == patch.startup_script,
        patch.startup_script is None ==> new.startup_script == old.startup_script,
        patch.traffic_graph is Some ==> new.traffic_graph == patch.traffic_graph,
        patch.traffic_graph is None ==> new.traffic_graph == old.traffic_graph,
        patch.enable_memory_usage is Some ==> new.enable_memory_usage == patch.enable_memory_usage,
        patch.enable_memory_usage is None ==> new.enable_memory_usage == old.enable_memory_usage,
        patch.enable_group_icon is Some ==> new.enable_group_icon == patch.enable_group_icon,
        patch.enable_group_icon is None ==> new.enable_group_icon == old.enable_group_icon,
        patch.common_tray_icon is Some ==> new.common_tray_icon == patch.common_tray_icon,
        patch.common_tray_icon is None ==> new.common_tray_icon == old.common_tray_icon,
        patch.menu_icon is Some ==> new.menu_icon == patch.menu_icon,
        patch.menu_icon is None ==> new.menu_icon == old.menu_icon,
        patch.menu_order matches Some(v) ==> (new.menu_order matches Some(w) && w@ == v@),
        patch.menu_order is None ==> (new.menu_order is Some <==> old.menu_order is Some),
        patch.menu_order is None ==> (old.menu_order matches Some(v) ==> (new.menu_order matches Some(w) && w@ == v@)),
        new.toast_position == old.toast_position,
        patch.collapse_navbar is Some ==> new.collapse_navbar == patch.collapse_navbar,
        patch.collapse_navbar is None ==> new.collapse_navbar == old.collapse_navbar,
        patch.sysproxy_tray_icon is Some ==> new.sysproxy_tray_icon == patch.sysproxy_tray_icon,
        patch.sysproxy_tray_icon is None ==> new.sysproxy_tray_icon == old.sysproxy_tray_icon,
        patch.tun_tray_icon is Some ==> new.tun_tray_icon == patch.tun_tray_icon,
        patch.tun_tray_icon is None ==> new.tun_tray_icon == old.tun_tray_icon,
        patch.enable_tun_mode is Some ==> new.enable_tun_mode == patch.enable_tun_mode,
        patch.enable_tun_mode is None ==> new.enable_tun_mode == old.enable_tun_mode,
        patch.enable_auto_launch is Some ==> new.enable_auto_launch == patch.enable_auto_launch,
        patch.enable_auto_launch is None ==> new.enable_auto_launch == old.enable_auto_launch,
        patch.enable_system_proxy is Some ==> new.enable_system_proxy == patch.enable_system_proxy,
        patch.enable_system_proxy is None ==> new.enable_system_proxy == old.enable_system_proxy,
        patch.enable_silent_start is Some ==> new.enable_silent_start == patch.enable_silent_start,
        patch.enable_silent_start is None ==> new.enable_silent_start == old.enable_silent_start,
        patch.enable_proxy_guard is Some ==> new.enable_proxy_guard == patch.enable_proxy_guard,
        patch.enable_proxy_guard is None ==> new.enable_proxy_guard == old.enable_proxy_guard,
        patch.enable_dns_settings is Some ==> new.enable_dns_settings == patch.enable_dns_settings,
        patch.enable_dns_settings is None ==> new.enable_dns_settings == old.enable_dns_settings,
        patch.use_default_bypass is Some ==> new.use_default_bypass == patch.use_default_bypass,
        patch.use_default_bypass is None ==> new.use_default_bypass == old.use_default_bypass,
        patch.system_proxy_bypass is Some ==> new.system_proxy_bypass == patch.system_proxy_bypass,
        patch.system_proxy_bypass is None ==> new.system_proxy_bypass == old.system_proxy_bypass,
        patch.proxy_guard_duration is Some ==> new.proxy_guard_duration == patch.proxy_guard_duration,
        patch.proxy_guard_duration is None ==> new.proxy_guard_duration == old.proxy_guard_duration,
        patch.proxy_auto_config is Some ==> new.proxy_auto_config == patch.proxy_auto_config,
        patch.proxy_auto_config is None ==> new.proxy_auto_config == old.proxy_auto_config,
        patch.pac_file_content is Some ==> new.pac_file_content == patch.pac_file_content,
        patch.pac_file_content is None ==> new.pac_file_content == old.pac_file_content,
        patch.proxy_host is Some ==> new.proxy_host == patch.proxy_host,
        patch.proxy_host is None ==> new.proxy_host == old.proxy_host,
        patch.theme_setting is Some ==> new.theme_setting == patch.theme_setting,
        patch.theme_setting is None ==> new.theme_setting == old.theme_setting,
        patch.web_ui_list matches Some(v) ==> (new.web_ui_list matches Some(w) && w@ == v@),
        patch.web_ui_list is None ==> (new.web_ui_list is Some <==> old.web_ui_list is Some),
        patch.web_ui_list is None ==> (old.web_ui_list matches Some(v) ==> (new.web_ui_list matches Some(w) && w@ == v@)),
        patch.clash_core is Some ==> new.clash_core == patch.clash_core,
        patch.clash_core is None ==> new.clash_core == old.clash_core,
        patch.hotkeys matches Some(v) ==> (new.hotkeys matches Some(w) && w@ == v@),
        patch.hotkeys is None ==> (new.hotkeys is Some <==> old.hotkeys is Some),
        patch.hotkeys is None ==> (old.hotkeys matches Some(v) ==> (new.hotkeys matches Some(w) && w@ == v@)),
        patch.enable_global_hotkey is Some ==> new.enable_global_hotkey == patch.enable_global_hotkey,
        patch.enable_global_hotkey is None ==> new.enable_global_hotkey == old.enable_global_hotkey,
        patch.home_cards is Some ==> new.home_cards == patch.home_cards,
        patch.home_cards is None ==> new.home_cards == old.home_cards,
        patch.auto_close_connection is Some ==> new.auto_close_connection == patch.auto_close_connection,
        patch.auto_close_connection is None ==> new.auto_close_connection == old.auto_close_connection,
        patch.enable_auto_check_update is Some ==> new.enable_auto_check_update == patch.enable_auto_check_update,
        patch.enable_auto_check_update is None ==> new.enable_auto_check_update == old.enable_auto_check_update,
        patch.default_latency_test is Some ==> new.default_latency_test == patch.default_latency_test,
        patch.default_latency_test is None ==> new.default_latency_test == old.default_latency_test,
        patch.default_latency_timeout is Some ==> new.default_latency_timeout == patch.default_latency_timeout,
        patch.default_latency_timeout is None ==> new.default_latency_timeout == old.default_latency_timeout,
        patch.enable_auto_delay_detection is Some ==> new.enable_auto_delay_detection == patch.enable_auto_delay_detection,
        patch.enable_auto_delay_detection is None ==> new.enable_auto_delay_detection == old.enable_auto_delay_detection,
        patch.enable_builtin_enhanced is Some ==> new.enable_builtin_enhanced == patch.enable_builtin_enhanced,
        patch.enable_builtin_enhanced is None ==> new.enable_builtin_enhanced == old.enable_builtin_enhanced,
        patch.proxy_layout_column is Some ==> new.proxy_layout_column == patch.proxy_layout_column,
        patch.proxy_layout_column is None ==> new.proxy_layout_column == old.proxy_layout_column,
        patch.test_list matches Some(v) ==> (new.test_list matches Some(w) && w@ == v@),
        patch.test_list is None ==> (new.test_list is Some <==> old.test_list is Some),
        patch.test_list is None ==> (old.test_list matches Some(v) ==> (new.test_list matches Some(w) && w@ == v@)),
        patch.auto_log_clean is Some ==> new.auto_log_clean == patch.auto_log_clean,
        patch.auto_log_clean is None ==> new.auto_log_clean == old.auto_log_clean,
        new.enable_auto_backup_scheduled == old.enable_auto_backup_scheduled,
        patch.auto_backup_interval_hours is Some ==> new.auto_backup_interval_hours == patch.auto_backup_interval_hours,
        patch.auto_backup_interval_hours is None ==> new.auto_backup_interval_hours == old.auto_backup_interval_hours,
        patch.auto_backup_on_change is Some ==> new.auto_backup_on_change == patch.auto_backup_on_change,
        patch.auto_backup_on_change is None ==> new.auto_backup_on_change == old.auto_backup_on_change,
        patch.verge_redir_port is Some ==> new.verge_redir_port == patch.verge_redir_port,
        patch.verge_redir_port is None ==> new.verge_redir_port == old.verge_redir_port,
        patch.verge_redir_enabled is Some ==> new.verge_redir_enabled == patch.verge_redir_enabled,
        patch.verge_redir_enabled is None ==> new.verge_redir_enabled == old.verge_redir_enabled,
        patch.verge_tproxy_port is Some ==> new.verge_tproxy_port == patch.verge_tproxy_port,
        patch.verge_tproxy_port is None ==> new.verge_tproxy_port == old.verge_tproxy_port,
        patch.verge_tproxy_enabled is Some ==> new.verge_tproxy_enabled == patch.verge_tproxy_enabled,
        patch.verge_tproxy_enabled is None ==> new.verge_tproxy_enabled == old.verge_tproxy_enabled,
        patch.verge_mixed_port is Some ==> new.verge_mixed_port == patch.verge_mixed_port,
        patch.verge_mixed_port is None ==> new.verge_mixed_port == old.verge_mixed_port,
        patch.verge_socks_port is Some ==> new.verge_socks_port == patch.verge_socks_port,
        patch.verge_socks_port is None ==> new.verge_socks_port == old.verge_socks_port,
        patch.verge_socks_enabled is Some ==> new.verge_socks_enabled == patch.verge_socks_enabled,
        patch.verge_socks_enabled is None ==> new.verge_socks_enabled == old.verge_socks_enabled,
        patch.verge_port is Some ==> new.verge_port == patch.verge_port,
        patch.verge_port is None ==> new.verge_port == old.verge_port,
        patch.verge_http_enabled is Some ==> new.verge_http_enabled == patch.verge_http_enabled,
        patch.verge_http_enabled is None ==> new.verge_http_enabled == old.verge_http_enabled,
        patch.webdav_url is Some ==> new.webdav_url == patch.webdav_url,
        patch.webdav_url is None ==> new.webdav_url == old.webdav_url,
        patch.webdav_username is Some ==> new.webdav_username == patch.webdav_username,
        patch.webdav_username is None ==> new.webdav_username == old.webdav_username,
        patch.webdav_password is Some ==> new.webdav_password == patch.webdav_password,
        patch.webdav_password is None ==> new.webdav_password == old.webdav_password,
        patch.enable_tray_speed is Some ==> new.enable_tray_speed == patch.enable_tray_speed,
        patch.enable_tray_speed is None ==> new.enable_tray_speed == old.enable_tray_speed,
        patch.tray_proxy_groups_display_mode is Some ==> new.tray_proxy_groups_display_mode == patch.tray_proxy_groups_display_mode,
        patch.tray_proxy_groups_display_mode is None ==> new.tray_proxy_groups_display_mode == old.tray_proxy_groups_display_mode,
        patch.tray_inline_outbound_modes is Some ==> new.tray_inline_outbound_modes == patch.tray_inline_outbound_modes,
        patch.tray_inline_outbound_modes is None ==> new.tray_inline_outbound_modes == old.tray_inline_outbound_modes,
        patch.enable_auto_light_weight_mode is Some ==> new.enable_auto_light_weight_mode == patch.enable_auto_light_weight_mode,
        patch.enable_auto_light_weight_mode is None ==> new.enable_auto_light_weight_mode == old.enable_auto_light_weight_mode,
        patch.auto_light_weight_minutes is Some ==> new.auto_light_weight_minutes == patch.auto_light_weight_minutes,
        patch.auto_light_weight_minutes is None ==> new.auto_light_weight_minutes == old.auto_light_weight_minutes,
        patch.enable_hover_jump_navigator is Some ==> new.enable_hover_jump_navigator == patch.enable_hover_jump_navigator,
        patch.enable_hover_jump_navigator is None ==> new.enable_hover_jump_navigator == old.enable_hover_jump_navigator,
        patch.hover_jump_navigator_delay is Some ==> new.hover_jump_navigator_delay == patch.hover_jump_navigator_delay,
        patch.hover_jump_navigator_delay is None ==> new.hover_jump_navigator_delay == old.hover_jump_navigator_delay,
        patch.enable_external_controller is Some ==> new.enable_external_controller == patch.enable_external_controller,
        patch.enable_external_controller is None ==> new.enable_external_controller == old.enable_external_controller,
        patch.app_log_level is Some ==> new.app_log_level == patch.app_log_level,
        patch.app_log_level is None ==> new.app_log_level == old.app_log_level,
        patch.app_log_max_size is Some ==> new.app_log_max_size == patch.app_log_max_size,
        patch.app_log_max_size is None ==> new.app_log_max_size == old.app_log_max_size,
        patch.app_log_max_count is Some ==> new.app_log_max_count == patch.app_log_max_count,
        patch.app_log_max_count is None ==> new.app_log_max_count == old.app_log_max_count,
        patch.enable_auto_backup_schedule is Some ==> new.enable_auto_backup_schedule == patch.enable_auto_backup_schedule,
        patch.enable_auto_backup_schedule is None ==> new.enable_auto_backup_schedule == old.enable_auto_backup_schedule,
        patch.notice_position is Some ==> new.notice_position == patch.notice_position,
        patch.notice_position is None ==> new.notice_position == old.notice_position,
        new.clash_core_path == old.clash_core_path,
{
}

/// A fresh installation logs at `Info`, runs the default core and starts on
/// the home page.
pub proof fn law_template_defaults(t: IVerge, language: Seq<char>)
    requires
        is_template(t, language),
    ensures
        log_level_of(opt_view(t.app_log_level)) == LogLevel::Info,
        t.clash_core matches Some(c) && is_valid_core(c@),
        opt_view(t.start_page) == Some("/"@),
{
}

/// Settings with nothing set.
impl Default for IVerge {
    fn default() -> (r: Self)
        ensures
            is_empty_patch(r),
    {
        IVerge {
            theme_mode: None,
            language: None,
            tray_event: None,
            env_type: None,
            start_page: None,
            startup_script: None,
            traffic_graph: None,
            enable_memory_usage: None,
            enable_group_icon: None,
            common_tray_icon: None,
            menu_icon: None,
            menu_order: None,
            toast_position: None,
            collapse_navbar: None,
            sysproxy_tray_icon: None,
            tun_tray_icon: None,
            enable_tun_mode: None,
            enable_auto_launch: None,
            enable_system_proxy: None,
            enable_silent_start: None,
            enable_proxy_guard: None,
            enable_dns_settings: None,
            use_default_bypass: None,
            system_proxy_bypass: None,
            proxy_guard_duration: None,
            proxy_auto_config: None,
            pac_file_content: None,
            proxy_host: None,
            theme_setting: None,
            web_ui_list: None,
            clash_core: None,
            hotkeys: None,
            enable_global_hotkey: None,
            home_cards: None,
            auto_close_connection: None,
            enable_auto_check_update: None,
            default_latency_test: None,
            default_latency_timeout: None,
            enable_auto_delay_detection: None,
            enable_builtin_enhanced: None,
            proxy_layout_column: None,
            test_list: None,
            auto_log_clean: None,
            enable_auto_backup_scheduled: None,
            auto_backup_interval_hours: None,
            auto_backup_on_change: None,
            verge_redir_port: None,
            verge_redir_enabled: None,
            verge_tproxy_port: None,
            verge_tproxy_enabled: None,
            verge_mixed_port: None,
            verge_socks_port: None,
            verge_socks_enabled: None,
            verge_port: None,
            verge_http_enabled: None,
            webdav_url: None,
            webdav_username: None,
            webdav_password: None,
            enable_tray_speed: None,
            tray_proxy_groups_display_mode: None,
            tray_inline_outbound_modes: None,
            enable_auto_light_weight_mode: None,
            auto_light_weight_minutes: None,
            enable_hover_jump_navigator: None,
            hover_jump_navigator_delay: None,
            enable_external_controller: None,
            app_log_level: None,
            app_log_max_size: None,
            app_log_max_count: None,
            enable_auto_backup_schedule: None,
            notice_position: None,
            clash_core_path: None,
        }
    }
}

impl IVerge {
    /// The settings of a fresh installation with interface language `language`.
    pub fn template(language: &str) -> (r: Self)
        ensures
            is_template(r, language@),
    {
        IVerge {
            theme_mode: Some("system".to_owned()),
            language: Some(language.to_owned()),
            tray_event: None,
            env_type: Some("bash".to_owned()),
            start_page: Some("/".to_owned()),
            startup_script: None,
            traffic_graph: Some(true),
            enable_memory_usage: Some(true),
            enable_group_icon: Some(true),
            common_tray_icon: Some(false),
            menu_icon: Some("monochrome".to_owned()),
            menu_order: None,
            toast_position: None,
            collapse_navbar: Some(false),
            sysproxy_tray_icon: Some(false),
            tun_tray_icon: Some(false),
            enable_tun_mode: None,
            enable_auto_launch: Some(false),
            enable_system_proxy: Some(false),
            enable_silent_start: Some(false),
            enable_proxy_guard: Some(false),
            enable_dns_settings: Some(false),
            use_default_bypass: Some(true),
            system_proxy_bypass: None,
            proxy_guard_duration: Some(30),
            proxy_auto_config: Some(false),
            pac_file_content: Some(default_pac().to_owned()),
            proxy_host: Some("127.0.0.1".to_owned()),
            theme_setting: None,
            web_ui_list: None,
            clash_core: Some("verge-mihomo".to_owned()),
            hotkeys: None,
            enable_global_hotkey: Some(true),
            home_cards: None,
            auto_close_connection: Some(true),
            enable_auto_check_update: Some(true),
            default_latency_test: None,
            default_latency_timeout: None,
            enable_auto_delay_detection: None,
            enable_builtin_enhanced: Some(true),
            proxy_layout_column: None,
            test_list: None,
            auto_log_clean: Some(2),
            enable_auto_backup_scheduled: None,
            auto_backup_interval_hours: Some(24),
            auto_backup_on_change: Some(true),
            verge_redir_port: Some(7895),
            verge_redir_enabled: None,
            verge_tproxy_port: Some(7896),
            verge_tproxy_enabled: Some(false),
            verge_mixed_port: Some(7897),
            verge_socks_port: Some(7898),
            verge_socks_enabled: Some(false),
            verge_port: Some(7899),
            verge_http_enabled: Some(false),
            webdav_url: None,
            webdav_username: None,
            webdav_password: None,
            enable_tray_speed: Some(false),
            tray_proxy_groups_display_mode: Some("default".to_owned()),
            tray_inline_outbound_modes: Some(false),
            enable_auto_light_weight_mode: Some(false),
            auto_light_weight_minutes: Some(10),
            enable_hover_jump_navigator: Some(true),
            hover_jump_navigator_delay: Some(280),
            enable_external_controller: Some(false),
            app_log_level: None,
            app_log_max_size: Some(128),
            app_log_max_count: Some(8),
            enable_auto_backup_schedule: Some(false),
            notice_position: Some("top-right".to_owned()),
            clash_core_path: None,
        }
    }

    /// Takes every setting that `patch` sets.
    pub fn patch_config(&mut self, patch: &IVerge)
        ensures
            is_patched_verge(*final(self), *old(self), *patch),
    {
        patch_opt_string(&mut self.theme_mode, &patch.theme_mode);
        patch_opt_string(&mut self.language, &patch.language);
        patch_opt_string(&mut self.tray_event, &patch.tray_event);
        patch_opt_string(&mut self.env_type, &patch.env_type);
        patch_opt_string(&mut self.start_page, &patch.start_page);
        patch_opt_string(&mut self.startup_script, &patch.startup_script);
        patch_opt_copy(&mut self.traffic_graph, &patch.traffic_graph);
        patch_opt_copy(&mut self.enable_memory_usage, &patch.enable_memory_usage);
        patch_opt_copy(&mut self.enable_group_icon, &patch.enable_group_icon);
        patch_opt_copy(&mut self.common_tray_icon, &patch.common_tray_icon);
        patch_opt_string(&mut self.menu_icon, &patch.menu_icon);
        patch_opt_strings(&mut self.menu_order, &patch.menu_order);
        patch_opt_copy(&mut self.collapse_navbar, &patch.collapse_navbar);
        patch_opt_copy(&mut self.sysproxy_tray_icon, &patch.sysproxy_tray_icon);
        patch_opt_copy(&mut self.tun_tray_icon, &patch.tun_tray_icon);
        patch_opt_copy(&mut self.enable_tun_mode, &patch.enable_tun_mode);
        patch_opt_copy(&mut self.enable_auto_launch, &patch.enable_auto_launch);
        patch_opt_copy(&mut self.enable_system_proxy, &patch.enable_system_proxy);
        patch_opt_copy(&mut self.enable_silent_start, &patch.enable_silent_start);
        patch_opt_copy(&mut self.enable_proxy_guard, &patch.enable_proxy_guard);
        patch_opt_copy(&mut self.enable_dns_settings, &patch.enable_dns_settings);
        patch_opt_copy(&mut self.use_default_bypass, &patch.use_default_bypass);
        patch_opt_string(&mut self.system_proxy_bypass, &patch.system_proxy_bypass);
        patch_opt_copy(&mut self.proxy_guard_duration, &patch.proxy_guard_duration);
        patch_opt_copy(&mut self.proxy_auto_config, &patch.proxy_auto_config);
        patch_opt_string(&mut self.pac_file_content, &patch.pac_file_content);
        patch_opt_string(&mut self.proxy_host, &patch.proxy_host);
        patch_opt_theme(&mut self.theme_setting, &patch.theme_setting);
        patch_opt_strings(&mut self.web_ui_list, &patch.web_ui_list);
        patch_opt_string(&mut self.clash_core, &patch.clash_core);
        patch_opt_strings(&mut self.hotkeys, &patch.hotkeys);
        patch_opt_copy(&mut self.enable_global_hotkey, &patch.enable_global_hotkey);
        patch_opt_json(&mut self.home_cards, &patch.home_cards);
        patch_opt_copy(&mut self.auto_close_connection, &patch.auto_close_connection);
        patch_opt_copy(&mut self.enable_auto_check_update, &patch.enable_auto_check_update);
        patch_opt_string(&mut self.default_latency_test, &patch.default_latency_test);
        patch_opt_copy(&mut self.default_latency_timeout, &patch.default_latency_timeout);
        patch_opt_copy(&mut self.enable_auto_delay_detection, &patch.enable_auto_delay_detection);
        patch_opt_copy(&mut self.enable_builtin_enhanced, &patch.enable_builtin_enhanced);
        patch_opt_copy(&mut self.proxy_layout_column, &patch.proxy_layout_column);
        patch_opt_test_list(&mut self.test_list, &patch.test_list);
        patch_opt_copy(&mut self.auto_log_clean, &patch.auto_log_clean);
        patch_opt_copy(&mut self.auto_backup_interval_hours, &patch.auto_backup_interval_hours);
        patch_opt_copy(&mut self.auto_backup_on_change, &patch.auto_backup_on_change);
        patch_opt_copy(&mut self.verge_redir_port, &patch.verge_redir_port);
        patch_opt_copy(&mut self.verge_redir_enabled, &patch.verge_redir_enabled);
        patch_opt_copy(&mut self.verge_tproxy_port, &patch.verge_tproxy_port);
        patch_opt_copy(&mut self.verge_tproxy_enabled, &patch.verge_tproxy_enabled);
        patch_opt_copy(&mut self.verge_mixed_port, &patch.verge_mixed_port);
        patch_opt_copy(&mut self.verge_socks_port, &patch.verge_socks_port);
        patch_opt_copy(&mut self.verge_socks_enabled, &patch.verge_socks_enabled);
        patch_opt_copy(&mut self.verge_port, &patch.verge_port);
        patch_opt_copy(&mut self.verge_http_enabled, &patch.verge_http_enabled);
        patch_opt_string(&mut self.webdav_url, &patch.webdav_url);
        patch_opt_string(&mut self.webdav_username, &patch.webdav_username);
        patch_opt_string(&mut self.webdav_password, &patch.webdav_password);
        patch_opt_copy(&mut self.enable_tray_speed, &patch.enable_tray_speed);
        patch_opt_string(&mut self.tray_proxy_groups_display_mode, &patch.tray_proxy_groups_display_mode);
        patch_opt_copy(&mut self.tray_inline_outbound_modes, &patch.tray_inline_outbound_modes);
        patch_opt_copy(&mut self.enable_auto_light_weight_mode, &patch.enable_auto_light_weight_mode);
        patch_opt_copy(&mut self.auto_light_weight_minutes, &patch.auto_light_weight_minutes);
        patch_opt_copy(&mut self.enable_hover_jump_navigator, &patch.enable_hover_jump_navigator);
        patch_opt_copy(&mut self.hover_jump_navigator_delay, &patch.hover_jump_navigator_delay);
        patch_opt_copy(&mut self.enable_external_controller, &patch.enable_external_controller);
        patch_opt_string(&mut self.app_log_level, &patch.app_log_level);
        patch_opt_copy(&mut self.app_log_max_size, &patch.app_log_max_size);
        patch_opt_copy(&mut self.app_log_max_count, &patch.app_log_max_count);
        patch_opt_copy(&mut self.enable_auto_backup_schedule, &patch.enable_auto_backup_schedule);
        patch_opt_string(&mut self.notice_position, &patch.notice_position);
    }

    /// The configured core, or the default core.
    pub fn get_valid_clash_cores(&self) -> (r: String)
        ensures
            r@ == match self.clash_core {
                Some(c) => c@,
                None => "verge-mihomo"@,
            },
    {
        match &self.clash_core {
            Some(c) => c.clone(),
            None => "verge-mihomo".to_owned(),
        }
    }

    /// Whether `core` is one of the accepted core names.
    pub fn is_valid_clash_core(core: &str) -> (r: bool)
        ensures
            r == is_valid_core(core@),
    {
        str_eq(core, "verge-mihomo") || str_eq(core, "verge-mihomo-alpha")
    }

    /// The start-up check of the core setting: an unset core becomes the
    /// default core, and so does an unknown or empty one; afterwards the
    /// setting names a valid core. Returns whether
    /// the settings changed and are due to be saved and reloaded.
    pub fn validate_and_fix_config(&mut self) -> (changed: bool)
        ensures
            match old(self).clash_core {
                None => changed && opt_view(final(self).clash_core) == Some("verge-mihomo"@),
                Some(c) => if is_valid_core(c@) {
                    !changed && final(self).clash_core == old(self).clash_core
                } else {
                    changed && opt_view(final(self).clash_core) == Some("verge-mihomo"@)
                },
            },
            *final(self) == (IVerge { clash_core: final(self).clash_core, ..*old(self) }),
            final(self).clash_core matches Some(c) && is_valid_core(c@),
    {
        proof {
            reveal_strlit("verge-mihomo");
            reveal_strlit("verge-mihomo-alpha");
        }
        match &self.clash_core {
            Some(core) => {
                if !Self::is_valid_clash_core(core.as_str()) || core.as_str().is_empty() {
                    self.clash_core = Some("verge-mihomo".to_owned());
                    true
                } else {
                    false
                }
            },
            None => {
                self.clash_core = Some("verge-mihomo".to_owned());
                true
            },
        }
    }

    /// Settings saved by older versions name the home page `/home`; it is
    /// now `/`.
    pub fn fix_start_page(&mut self)
        ensures
            if opt_view(old(self).start_page) == Some("/home"@) {
                opt_view(final(self).start_page) == Some("/"@)
            } else {
                final(self).start_page == old(self).start_page
            },
            *final(self) == (IVerge { start_page: final(self).start_page, ..*old(self) }),
    {
        let is_home = match &self.start_page {
            Some(p) => str_eq(p.as_str(), "/home"),
            None => false,
        };
        if is_home {
            self.start_page = Some("/".to_owned());
        }
    }

    /// The port of the single-instance server.
    pub fn get_singleton_port() -> (r: u16)
        ensures
            r == crate::constants::SERVER_PORT,
    {
        crate::constants::SERVER_PORT
    }

    /// The level of the application log.
    pub fn get_log_level(&self) -> (r: LogLevel)
        ensures
            r == log_level_of(opt_view(self.app_log_level)),
    {
        match &self.app_log_level {
            None => LogLevel::Info,
            Some(level) => {
                let l = to_ascii_lower(level.as_str());
                if str_eq(l.as_str(), "silent") {
                    LogLevel::Off
                } else if str_eq(l.as_str(), "error") {
                    LogLevel::Error
                } else if str_eq(l.as_str(), "warn") {
                    LogLevel::Warn
                } else if str_eq(l.as_str(), "info") {
                    LogLevel::Info
                } else if str_eq(l.as_str(), "debug") {
                    LogLevel::Debug
                } else if str_eq(l.as_str(), "trace") {
                    LogLevel::Trace
                } else {
                    LogLevel::Info
                }
            },
        }
    }

    /// Whether the system proxy is on (off when unset).
    pub fn is_system_proxy_enabled(&self) -> (r: bool)
        ensures
            r == (self.enable_system_proxy == Some(true)),
    {
        self.enable_system_proxy.unwrap_or(false)
    }

    /// Whether TUN mode is on (off when unset).
    pub fn is_tun_mode_enabled(&self) -> (r: bool)
        ensures
            r == (self.enable_tun_mode == Some(true)),
    {
        self.enable_tun_mode.unwrap_or(false)
    }

    /// Whether launch at login is on (off when unset).
    pub fn is_auto_launch_enabled(&self) -> (r: bool)
        ensures
            r == (self.enable_auto_launch == Some(true)),
    {
        self.enable_auto_launch.unwrap_or(false)
    }

    /// Whether global hotkeys are on (on when unset).
    pub fn is_global_hotkey_enabled(&self) -> (r: bool)
        ensures
            r == (self.enable_global_hotkey != Some(false)),
    {
        self.enable_global_hotkey.unwrap_or(true)
    }

    /// The path of the core executable, if set.
    pub fn get_clash_core_path(&self) -> (r: Option<String>)
        ensures
            r == self.clash_core_path,
    {
        clone_opt_string(&self.clash_core_path)
    }

    /// Sets the path of the core executable.
    pub fn set_clash_core_path(&mut self, path: &str)
        ensures
            opt_view(final(self).clash_core_path) == Some(path@),
            *final(self) == (IVerge { clash_core_path: final(self).clash_core_path, ..*old(self) }),
    {
        self.clash_core_path = Some(path.to_owned());
    }
}

} // verus!
