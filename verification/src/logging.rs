//! Log categories, the module filter of the log writer, and the once-only
//! shutdown on system signals.

use vstd::prelude::*;
use crate::text::{chars_of, starts_with};

verus! {

/// The category a log line is filed under.
#[derive(Debug, Clone, Copy, PartialEq, Eq, Structural)]
pub enum Type {
    Cmd,
    Core,
    Config,
    Setup,
    System,
    SystemSignal,
    Service,
    Hotkey,
    Window,
    Tray,
    Timer,
    Frontend,
    Backup,
    File,
    Lightweight,
    Network,
    ProxyMode,
    Validate,
    ClashVergeRev,
}

/// The tag a category prints as.
pub open spec fn type_tag(t: Type) -> Seq<char> {
    match t {
        Type::Cmd => "[Cmd]"@,
        Type::Core => "[Core]"@,
        Type::Config => "[Config]"@,
        Type::Setup => "[Setup]"@,
        Type::System => "[System]"@,
        Type::SystemSignal => "[SystemSignal]"@,
        Type::Service => "[Service]"@,
        Type::Hotkey => "[Hotkey]"@,
        Type::Window => "[Window]"@,
        Type::Tray => "[Tray]"@,
        Type::Timer => "[Timer]"@,
        Type::Frontend => "[Frontend]"@,
        Type::Backup => "[Backup]"@,
        Type::File => "[File]"@,
        Type::Lightweight => "[Lightweight]"@,
        Type::Network => "[Network]"@,
        Type::ProxyMode => "[ProxyMode]"@,
        Type::Validate => "[Validate]"@,
        Type::ClashVergeRev => "[ClashVergeRev]"@,
    }
}

impl Type {
    /// The tag of the category, as log lines print it.
    pub fn tag(&self) -> (r: &'static str)
        ensures
            r@ == type_tag(*self),
    {
        match self {
            Type::Cmd => "[Cmd]",
            Type::Core => "[Core]",
            Type::Config => "[Config]",
            Type::Setup => "[Setup]",
            Type::System => "[System]",
            Type::SystemSignal => "[SystemSignal]",
            Type::Service => "[Service]",
            Type::Hotkey => "[Hotkey]",
            Type::Window => "[Window]",
            Type::Tray => "[Tray]",
            Type::Timer => "[Timer]",
            Type::Frontend => "[Frontend]",
            Type::Backup => "[Backup]",
            Type::File => "[File]",
            Type::Lightweight => "[Lightweight]",
            Type::Network => "[Network]",
            Type::ProxyMode => "[ProxyMode]",
            Type::Validate => "[Validate]",
            Type::ClashVergeRev => "[ClashVergeRev]",
        }
    }
}

/// Suppresses log lines from modules whose path starts with one of the
/// listed prefixes.
pub struct NoModuleFilter<'a>(pub &'a [&'a str]);

/// A line from `module` is blocked by one of `blocked`.
pub open spec fn is_blocked(blocked: Seq<&str>, module: Seq<char>) -> bool {
    exists|i: int| 0 <= i < blocked.len() && starts_with(module, (#[trigger] blocked[i])@)
}

/// Whether `p` starts `s`.
pub fn has_prefix(s: &str, p: &str) -> (r: bool)
    ensures
        r == starts_with(s@, p@),
{
    let sv = chars_of(s);
    let pv = chars_of(p);
    if pv.len() > sv.len() {
        return false;
    }
    let mut i: usize = 0;
    while i < pv.len()
        invariant
            i <= pv@.len(),
            pv@.len() <= sv@.len(),
            sv@ == s@,
            pv@ == p@,
            forall|j: int| 0 <= j < i ==> sv@[j] == pv@[j],
        decreases pv@.len() - i,
    {
        if sv[i] != pv[i] {
            assert(s@.take(p@.len() as int)[i as int] != p@[i as int]);
            return false;
        }
        i = i + 1;
    }
    assert(s@.take(p@.len() as int) =~= p@);
    true
}

impl<'a> NoModuleFilter<'a> {
    /// Whether a line from `module_name` is kept: lines without a module
    /// are kept, and so are lines from modules that no prefix blocks.
    pub fn filter(&self, module_name: Option<&str>) -> (r: bool)
        ensures
            match module_name {
                Some(m) => r == !is_blocked(self.0@, m@),
                None => r,
            },
    {
        match module_name {
            None => true,
            Some(module) => {
                let mut i: usize = 0;
                while i < self.0.len()
                    invariant
                        i <= self.0@.len(),
                        module_name == Some(module),
                        forall|j: int| 0 <= j < i ==> !starts_with(module@, (#[trigger] self.0@[j])@),
                    decreases self.0@.len() - i,
                {
                    if has_prefix(module, self.0[i]) {
                        assert(starts_with(module@, (self.0@[i as int])@));
                        return false;
                    }
                    i = i + 1;
                }
                true
            },
        }
    }
}

/// Runs the shutdown clean-up on the first system signal only.
pub struct ShutdownGate {
    pub cleaning_up: bool,
}

impl ShutdownGate {
    /// No signal seen yet.
    pub fn new() -> (r: Self)
        ensures
            !r.cleaning_up,
    {
        ShutdownGate { cleaning_up: false }
    }

    /// Records a signal; returns whether the clean-up is to run now, which
    /// is so for the first signal only.
    pub fn on_signal(&mut self) -> (run: bool)
        ensures
            run == !old(self).cleaning_up,
            final(self).cleaning_up,
    {
        if self.cleaning_up {
            false
        } else {
            self.cleaning_up = true;
            true
        }
    }
}

/// How many recorded answers are `true`.
pub open spec fn count_runs(runs: Seq<bool>) -> nat
    decreases runs.len(),
{
    if runs.len() == 0 {
        0
    } else {
        (if runs.last() {
            1nat
        } else {
            0nat
        }) + count_runs(runs.drop_last())
    }
}

/// Calls of `on_signal` on one gate: `states[i]` is the flag seen by call
/// `i`, `runs[i]` is what call `i` returns, and every step obeys the
/// contract of `on_signal`.
pub open spec fn is_signal_trace(states: Seq<bool>, runs: Seq<bool>) -> bool {
    &&& states.len() == runs.len() + 1
    &&& forall|i: int|
        0 <= i < runs.len() ==> (#[trigger] runs[i]) == !states[i] && states[i + 1]
}

/// Over any run of `on_signal` calls on one gate, the clean-up runs at most
/// one time. A gate that had seen no signal runs it exactly one time (when
/// any call is made); a gate that had seen one never runs it.
pub proof fn law_signals_run_cleanup_at_most_once(states: Seq<bool>, runs: Seq<bool>)
    requires
        is_signal_trace(states, runs),
    ensures
        count_runs(runs) <= 1,
        runs.len() > 0 && !states[0] ==> count_runs(runs) == 1,
        states[0] ==> count_runs(runs) == 0,
    decreases runs.len(),
{
    if runs.len() > 0 {
        let r2 = runs.drop_last();
        let s2 = states.drop_last();
        assert forall|i: int| 0 <= i < r2.len() implies (#[trigger] r2[i]) == !s2[i] && s2[i + 1] by {
            assert(r2[i] == runs[i]);
        }
        law_signals_run_cleanup_at_most_once(s2, r2);
        let n = runs.len() - 1;
        if n > 0 {
            assert(states[n]);
            assert(!runs[n]);
        }
    }
}

} // verus!
