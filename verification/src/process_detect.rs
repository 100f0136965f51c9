//! Process inspection over a snapshot of the process table.
//!
//! The caller reads the table; each text field is `None` where the process
//! reports a value that is not valid UTF-8.
use crate::text::{contains, eq_ignore_ascii_case, eq_ignore_case, seq_contains};
use vstd::prelude::*;

verus! {

/// One running process as the process table reports it.
#[derive(Debug, Clone)]
pub struct ProcessInfo {
    pub pid: u32,
    pub name: Option<String>,
    pub cmd: Vec<Option<String>>,
    pub exe: Option<String>,
}

/// A process name equals `expected` up to ASCII case.
pub fn process_name_matches_exact(name: &str, expected: &str) -> (r: bool)
    ensures
        r == eq_ignore_case(name@, expected@),
{
    eq_ignore_ascii_case(name, expected)
}

pub open spec fn spec_exact_name(p: ProcessInfo, name: Seq<char>) -> bool {
    p.name matches Some(n) && eq_ignore_case(n@, name)
}

pub open spec fn opt_contains(a: Option<String>, needle: Seq<char>) -> bool {
    a matches Some(x) && seq_contains(x@, needle)
}

/// The process's name, one of its arguments, or its executable path contains
/// `needle`.
pub open spec fn spec_fields_contain(p: ProcessInfo, needle: Seq<char>) -> bool {
    ||| opt_contains(p.name, needle)
    ||| exists|i: int| 0 <= i < p.cmd@.len() && opt_contains(#[trigger] p.cmd@[i], needle)
    ||| opt_contains(p.exe, needle)
}

pub fn process_fields_contain_needle(p: &ProcessInfo, needle: &str) -> (r: bool)
    ensures
        r == spec_fields_contain(*p, needle@),
{
    if let Some(n) = &p.name {
        if contains(n.as_str(), needle) {
            return true;
        }
    }
    let mut i: usize = 0;
    while i < p.cmd.len()
        invariant
            i <= p.cmd@.len(),
            forall|j: int| 0 <= j < i ==> !opt_contains(#[trigger] p.cmd@[j], needle@),
        decreases p.cmd@.len() - i,
    {
        if let Some(a) = &p.cmd[i] {
            if contains(a.as_str(), needle) {
                return true;
            }
        }
        i = i + 1;
    }
    match &p.exe {
        Some(e) => contains(e.as_str(), needle),
        None => false,
    }
}

/// Pids of the processes whose name matches exactly (ASCII case-insensitive),
/// in table order.
pub open spec fn spec_pids_named(ps: Seq<ProcessInfo>, name: Seq<char>) -> Seq<u32>
    decreases ps.len(),
{
    if ps.len() == 0 {
        seq![]
    } else if spec_exact_name(ps.last(), name) {
        spec_pids_named(ps.drop_last(), name).push(ps.last().pid)
    } else {
        spec_pids_named(ps.drop_last(), name)
    }
}

pub fn process_pids_with_exact_name(processes: &[ProcessInfo], name: &str) -> (r: Vec<u32>)
    ensures
        r@ == spec_pids_named(processes@, name@),
{
    let mut out: Vec<u32> = Vec::new();
    let mut i: usize = 0;
    while i < processes.len()
        invariant
            i <= processes@.len(),
            out@ == spec_pids_named(processes@.subrange(0, i as int), name@),
        decreases processes@.len() - i,
    {
        assert(processes@.subrange(0, i + 1).drop_last() =~= processes@.subrange(0, i as int));
        let hit = match &processes[i].name {
            Some(n) => process_name_matches_exact(n.as_str(), name),
            None => false,
        };
        if hit {
            out.push(processes[i].pid);
        }
        i = i + 1;
    }
    assert(processes@.subrange(0, processes@.len() as int) =~= processes@);
    out
}

proof fn lemma_pids_named_empty(ps: Seq<ProcessInfo>, name: Seq<char>)
    ensures
        spec_pids_named(ps, name).len() == 0 <==> forall|j: int|
            0 <= j < ps.len() ==> !spec_exact_name(#[trigger] ps[j], name),
    decreases ps.len(),
{
    if ps.len() > 0 {
        let d = ps.drop_last();
        lemma_pids_named_empty(d, name);
        assert(forall|j: int| 0 <= j < d.len() ==> d[j] == ps[j]);
        assert(ps.last() == ps[ps.len() - 1]);
    }
}

/// True when any process has an exact name match (case-insensitive).
pub fn any_process_with_exact_name(processes: &[ProcessInfo], name: &str) -> (r: bool)
    ensures
        r == exists|j: int| 0 <= j < processes@.len() && spec_exact_name(#[trigger] processes@[j], name@),
{
    let pids = process_pids_with_exact_name(processes, name);
    proof {
        lemma_pids_named_empty(processes@, name@);
    }
    pids.len() > 0
}

/// True when any process name, argument, or executable path contains `needle`.
pub fn any_process_cmdline_contains(processes: &[ProcessInfo], needle: &str) -> (r: bool)
    ensures
        r == exists|j: int|
            0 <= j < processes@.len() && spec_fields_contain(#[trigger] processes@[j], needle@),
{
    let mut i: usize = 0;
    while i < processes.len()
        invariant
            i <= processes@.len(),
            forall|j: int| 0 <= j < i ==> !spec_fields_contain(#[trigger] processes@[j], needle@),
        decreases processes@.len() - i,
    {
        if process_fields_contain_needle(&processes[i], needle) {
            return true;
        }
        i = i + 1;
    }
    false
}

/// The executable path of a process: its reported executable, else its first
/// argument; an empty path counts as unknown.
pub open spec fn spec_exe_path(p: ProcessInfo) -> Option<Seq<char>> {
    let path = match p.exe {
        Some(e) => Some(e@),
        None => if p.cmd@.len() > 0 {
            match p.cmd@[0] {
                Some(a) => Some(a@),
                None => None,
            }
        } else {
            None
        },
    };
    match path {
        Some(s) => if s.len() > 0 {
            Some(s)
        } else {
            None
        },
        None => None,
    }
}

pub fn process_exe_path(p: &ProcessInfo) -> (r: Option<String>)
    ensures
        match r {
            Some(s) => spec_exe_path(*p) == Some(s@),
            None => spec_exe_path(*p) is None,
        },
{
    let path = match &p.exe {
        Some(e) => Some(e.clone()),
        None => if p.cmd.len() > 0 {
            match &p.cmd[0] {
                Some(a) => Some(a.clone()),
                None => None,
            }
        } else {
            None
        },
    };
    match path {
        Some(s) => if s.unicode_len() > 0 {
            Some(s)
        } else {
            None
        },
        None => None,
    }
}

} // verus!
