//! The Windows scheduled tasks that launch the application at login.

use vstd::prelude::*;
use crate::constants::{join, path_join};
use crate::text::trim;

verus! {

/// Whether the task runs as the user or elevated.
#[derive(Debug, Clone, Copy, PartialEq, Eq, Structural)]
pub enum TaskMode {
    User,
    Admin,
}

/// Why the user id of a task could not be formed.
#[derive(Debug, Clone, Copy, PartialEq, Eq, Structural)]
pub enum TaskError {
    /// No user name is known.
    UserNameMissing,
    /// The user name is blank.
    UserNameEmpty,
}

/// The file name of a task definition.
pub open spec fn task_file_name(mode: TaskMode) -> Seq<char> {
    match mode {
        TaskMode::User => "clash-verge-task-user.xml"@,
        TaskMode::Admin => "clash-verge-task-admin.xml"@,
    }
}

impl TaskMode {
    /// The task's name in the scheduler.
    pub fn name(self) -> (r: &'static str)
        ensures
            r@ == match self {
                TaskMode::User => "Clash Verge"@,
                TaskMode::Admin => "Clash Verge (Admin)"@,
            },
    {
        match self {
            TaskMode::User => "Clash Verge",
            TaskMode::Admin => "Clash Verge (Admin)",
        }
    }

    /// A short label of the mode.
    pub fn label(self) -> (r: &'static str)
        ensures
            r@ == match self {
                TaskMode::User => "user"@,
                TaskMode::Admin => "admin"@,
            },
    {
        match self {
            TaskMode::User => "user",
            TaskMode::Admin => "admin",
        }
    }

    /// The run level written into the task definition.
    pub fn xml_run_level(self) -> (r: &'static str)
        ensures
            r@ == match self {
                TaskMode::User => "LeastPrivilege"@,
                TaskMode::Admin => "HighestAvailable"@,
            },
    {
        match self {
            TaskMode::User => "LeastPrivilege",
            TaskMode::Admin => "HighestAvailable",
        }
    }

    /// The file the task definition is written to.
    pub fn xml_file_name(self) -> (r: &'static str)
        ensures
            r@ == task_file_name(self),
    {
        match self {
            TaskMode::User => "clash-verge-task-user.xml",
            TaskMode::Admin => "clash-verge-task-admin.xml",
        }
    }
}

/// The path of a task definition: `tasks/<file>` under the application's
/// home directory.
pub fn task_xml_path(mode: TaskMode, app_home: &str) -> (r: String)
    ensures
        r@ == path_join(path_join(app_home@, "tasks"@), task_file_name(mode)),
{
    let dir = join(app_home, "tasks");
    join(dir.as_str(), mode.xml_file_name())
}

/// The account a task runs under: `DOMAIN\user` when a domain is known and
/// not blank, else the user name; both are trimmed.
pub fn get_task_user_id(username: Option<&str>, domain: Option<&str>) -> (r: Result<String, TaskError>)
    ensures
        match username {
            None => r == Err::<String, TaskError>(TaskError::UserNameMissing),
            Some(u) => if crate::text::trimmed(u@).len() == 0 {
                r == Err::<String, TaskError>(TaskError::UserNameEmpty)
            } else {
                match domain {
                    Some(d) if crate::text::trimmed(d@).len() > 0 => r matches Ok(s) && s@
                        == crate::text::trimmed(d@) + "\\"@ + crate::text::trimmed(u@),
                    _ => r matches Ok(s) && s@ == crate::text::trimmed(u@),
                }
            },
        },
{
    let user = match username {
        Some(u) => trim(u),
        None => {
            return Err(TaskError::UserNameMissing);
        },
    };
    if user.as_str().is_empty() {
        return Err(TaskError::UserNameEmpty);
    }
    match domain {
        Some(d) => {
            let d = trim(d);
            if !d.as_str().is_empty() {
                let mut s = d;
                s.append("\\");
                s.append(user.as_str());
                return Ok(s);
            }
        },
        None => {},
    }
    Ok(user)
}

/// The start-up folder under the roaming application data directory.
pub fn get_startup_dir(appdata: &str) -> (r: String)
    ensures
        r@ == path_join(
            path_join(
                path_join(path_join(path_join(appdata@, "Microsoft"@), "Windows"@), "Start Menu"@),
                "Programs"@,
            ),
            "Startup"@,
        ),
{
    let a = join(appdata, "Microsoft");
    let b = join(a.as_str(), "Windows");
    let c = join(b.as_str(), "Start Menu");
    let d = join(c.as_str(), "Programs");
    join(d.as_str(), "Startup")
}

} // verus!
