//! Host information reported to the interface.

use vstd::prelude::*;
use crate::text::{decimal, decimal_string};

verus! {

/// Operating system, kernel, processors and memory of the host.
pub struct SystemInfo {
    pub os_name: String,
    pub os_version: String,
    pub kernel_version: String,
    pub cpu_count: u32,
    pub used_memory: u64,
    pub total_memory: u64,
}

/// A known value, else `Unknown`.
pub open spec fn or_unknown(o: Option<Seq<char>>) -> Seq<char> {
    match o {
        Some(s) => s,
        None => "Unknown"@,
    }
}

fn known_or_unknown(o: Option<String>) -> (r: String)
    ensures
        r@ == or_unknown(
            match o {
                Some(s) => Some(s@),
                None => None,
            },
        ),
{
    match o {
        Some(s) => s,
        None => "Unknown".to_owned(),
    }
}

impl SystemInfo {
    /// Assembles the report from what the host answered; unknown names read
    /// `Unknown`, and the processor count is cut to 32 bits.
    pub fn from_probe(
        os_name: Option<String>,
        os_version: Option<String>,
        kernel_version: Option<String>,
        cpu_count: usize,
        used_memory: u64,
        total_memory: u64,
    ) -> (r: Self)
        ensures
            r.os_name@ == or_unknown(
                match os_name {
                    Some(s) => Some(s@),
                    None => None,
                },
            ),
            r.os_version@ == or_unknown(
                match os_version {
                    Some(s) => Some(s@),
                    None => None,
                },
            ),
            r.kernel_version@ == or_unknown(
                match kernel_version {
                    Some(s) => Some(s@),
                    None => None,
                },
            ),
            r.cpu_count == cpu_count as u32,
            r.used_memory == used_memory,
            r.total_memory == total_memory,
    {
        SystemInfo {
            os_name: known_or_unknown(os_name),
            os_version: known_or_unknown(os_version),
            kernel_version: known_or_unknown(kernel_version),
            cpu_count: cpu_count as u32,
            used_memory,
            total_memory,
        }
    }
}

/// The host name, or the error text when the host has none.
pub fn get_system_hostname(host_name: Option<String>) -> (r: Result<String, String>)
    ensures
        match host_name {
            Some(h) => r == Ok::<String, String>(h),
            None => r matches Err(e) && e@ == "Failed to get hostname"@,
        },
{
    match host_name {
        Some(h) => Ok(h),
        None => Err("Failed to get hostname".to_owned()),
    }
}

/// The line describing one network interface.
pub open spec fn interface_line(name: Seq<char>, received: u64, transmitted: u64) -> Seq<char> {
    "Interface: "@ + name + ", Total Received: "@ + decimal(received as nat)
        + " bytes, Total Transmitted: "@ + decimal(transmitted as nat) + " bytes"@
}

/// The lines of all interfaces joined by the two characters `\` and `n`.
pub open spec fn joined_lines(entries: Seq<(String, u64, u64)>) -> Seq<char>
    decreases entries.len(),
{
    if entries.len() == 0 {
        Seq::empty()
    } else if entries.len() == 1 {
        interface_line(entries[0].0@, entries[0].1, entries[0].2)
    } else {
        joined_lines(entries.drop_last()) + "\\n"@ + interface_line(
            entries.last().0@,
            entries.last().1,
            entries.last().2,
        )
    }
}

fn interface_text(name: &str, received: u64, transmitted: u64) -> (r: String)
    ensures
        r@ == interface_line(name@, received, transmitted),
{
    let mut s = "Interface: ".to_owned();
    s.append(name);
    s.append(", Total Received: ");
    let a = decimal_string(received);
    s.append(a.as_str());
    s.append(" bytes, Total Transmitted: ");
    let b = decimal_string(transmitted);
    s.append(b.as_str());
    s.append(" bytes");
    s
}

/// A summary of the network interfaces: one line per interface (name, bytes
/// received and sent), or a notice when there are none.
pub fn get_network_interface(entries: &Vec<(String, u64, u64)>) -> (r: Result<String, String>)
    ensures
        r matches Ok(s) && s@ == if entries@.len() == 0 {
            "No network interfaces found"@
        } else {
            joined_lines(entries@)
        },
{
    if entries.len() == 0 {
        return Ok("No network interfaces found".to_owned());
    }
    let mut out = String::new();
    let mut i: usize = 0;
    while i < entries.len()
        invariant
            i <= entries@.len(),
            out@ == joined_lines(entries@.take(i as int)),
        decreases entries@.len() - i,
    {
        assert(entries@.take(i + 1).drop_last() =~= entries@.take(i as int));
        assert(entries@.take(i + 1).last() == entries@[i as int]);
        if i > 0 {
            out.append("\\n");
        }
        let line = interface_text(entries[i].0.as_str(), entries[i].1, entries[i].2);
        out.append(line.as_str());
        if i == 0 {
            assert(out@ =~= joined_lines(entries@.take(1)));
        }
        i = i + 1;
    }
    assert(entries@.take(i as int) =~= entries@);
    Ok(out)
}

/// The greeting of the demo command.
pub fn greet(name: &str) -> (r: String)
    ensures
        r@ == "Hello, "@ + name@ + "! You've been greeted from Rust!"@,
{
    let mut s = "Hello, ".to_owned();
    s.append(name);
    s.append("! You've been greeted from Rust!");
    s
}

} // verus!
