//! File and directory names of the application, its ports, and the paths
//! built from them.

use vstd::prelude::*;

verus! {

/// Port of the single-instance server.
pub const SERVER_PORT: u16 = 11235;

/// Default controller port.
pub const DEFAULT_PORT: u16 = 9090;

/// Default SOCKS port.
pub const DEFAULT_SOCKS_PORT: u16 = 7891;

/// Default HTTP port.
pub const DEFAULT_HTTP_PORT: u16 = 7890;

/// Default mixed port.
pub const DEFAULT_MIXED_PORT: u16 = 7892;

/// Name of the configuration directory.
pub open spec fn app_config_dir_name() -> Seq<char> {
    "my-new-app"@
}

/// `base` followed by the relative name `name`, with a `/` between them
/// unless `base` is empty or already ends in one.
pub open spec fn path_join(base: Seq<char>, name: Seq<char>) -> Seq<char> {
    if base.len() == 0 {
        name
    } else if base.last() == '/' {
        base + name
    } else {
        base + "/"@ + name
    }
}

/// Joins a relative name to a directory path.
pub fn join(base: &str, name: &str) -> (r: String)
    ensures
        r@ == path_join(base@, name@),
{
    if base.is_empty() {
        return name.to_owned();
    }
    let chars = crate::text::chars_of(base);
    let mut r = base.to_owned();
    if chars[chars.len() - 1] != '/' {
        r.append("/");
    }
    r.append(name);
    r
}

/// The user's configuration directory (as on Linux): `$XDG_CONFIG_HOME`
/// when set, else `.config` in the home directory, else none.
pub fn config_dir(xdg_config_home: Option<&str>, home: Option<&str>) -> (r: Option<String>)
    ensures
        match xdg_config_home {
            Some(x) => r matches Some(d) && d@ == x@,
            None => match home {
                Some(h) => r matches Some(d) && d@ == path_join(h@, ".config"@),
                None => r is None,
            },
        },
{
    match xdg_config_home {
        Some(x) => Some(x.to_owned()),
        None => match home {
            Some(h) => Some(join(h, ".config")),
            None => None,
        },
    }
}

/// The configuration directory: `my-new-app` under the user's
/// configuration directory, or under `.` when there is none.
pub open spec fn app_config_dir_spec(config_dir: Option<Seq<char>>) -> Seq<char> {
    path_join(
        match config_dir {
            Some(d) => d,
            None => "."@,
        },
        app_config_dir_name(),
    )
}

/// The configuration directory of the application.
pub fn app_config_dir(config_dir: Option<&str>) -> (r: String)
    ensures
        r@ == app_config_dir_spec(
            match config_dir {
                Some(d) => Some(d@),
                None => None,
            },
        ),
{
    let base = match config_dir {
        Some(d) => d,
        None => ".",
    };
    join(base, "my-new-app")
}

/// The profiles directory.
pub fn profiles_dir(config_dir: Option<&str>) -> (r: String)
    ensures
        r@ == path_join(
            app_config_dir_spec(
                match config_dir {
                    Some(d) => Some(d@),
                    None => None,
                },
            ),
            "profiles"@,
        ),
{
    join(app_config_dir(config_dir).as_str(), "profiles")
}

/// The logs directory.
pub fn logs_dir(config_dir: Option<&str>) -> (r: String)
    ensures
        r@ == path_join(
            app_config_dir_spec(
                match config_dir {
                    Some(d) => Some(d@),
                    None => None,
                },
            ),
            "logs"@,
        ),
{
    join(app_config_dir(config_dir).as_str(), "logs")
}

/// The directory of the core executables.
pub fn core_dir(config_dir: Option<&str>) -> (r: String)
    ensures
        r@ == path_join(
            app_config_dir_spec(
                match config_dir {
                    Some(d) => Some(d@),
                    None => None,
                },
            ),
            "core"@,
        ),
{
    join(app_config_dir(config_dir).as_str(), "core")
}

/// The icons directory.
pub fn icons_dir(config_dir: Option<&str>) -> (r: String)
    ensures
        r@ == path_join(
            app_config_dir_spec(
                match config_dir {
                    Some(d) => Some(d@),
                    None => None,
                },
            ),
            "icons"@,
        ),
{
    join(app_config_dir(config_dir).as_str(), "icons")
}

/// The path of the settings file.
pub fn verge_config(config_dir: Option<&str>) -> (r: String)
    ensures
        r@ == path_join(
            app_config_dir_spec(
                match config_dir {
                    Some(d) => Some(d@),
                    None => None,
                },
            ),
            "verge.yaml"@,
        ),
{
    join(app_config_dir(config_dir).as_str(), "verge.yaml")
}

/// The path of the core configuration file.
pub fn clash_config(config_dir: Option<&str>) -> (r: String)
    ensures
        r@ == path_join(
            app_config_dir_spec(
                match config_dir {
                    Some(d) => Some(d@),
                    None => None,
                },
            ),
            "config.yaml"@,
        ),
{
    join(app_config_dir(config_dir).as_str(), "config.yaml")
}

/// The directory the application log is written to (the logs directory).
pub fn get_log_dir(config_dir: Option<&str>) -> (r: String)
    ensures
        r@ == path_join(
            app_config_dir_spec(
                match config_dir {
                    Some(d) => Some(d@),
                    None => None,
                },
            ),
            "logs"@,
        ),
{
    logs_dir(config_dir)
}

} // verus!
