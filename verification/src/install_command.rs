//! Install-time cleanup: an eqMac HAL driver left behind without its app.
use crate::error::RustyJackError;
use crate::text::{concat2, concat3, owned, texts};
use vstd::prelude::*;

verus! {

/// What became of an orphaned eqMac HAL driver.
#[derive(Debug)]
pub enum OrphanedEqMacDriverCleanupResult {
    NotFound,
    Recommended { path: String, command: String },
    Removed { path: String },
    Skipped { path: String, reason: String },
}

pub open spec fn cleanup_command(path: Seq<char>) -> Seq<char> {
    "sudo rm -rf "@ + path
}

/// Remove an orphaned eqMac driver: only reported when not interactive, only after
/// `confirm` agrees otherwise; `remove` runs the removal for the path and reports
/// whether it succeeded.
pub fn cleanup_orphaned_eqmac_driver<C, R>(
    orphaned_path: Option<String>,
    interactive: bool,
    confirm: C,
    remove: R,
) -> (r: Result<OrphanedEqMacDriverCleanupResult, RustyJackError>) where
    C: FnOnce() -> Result<bool, RustyJackError>,
    R: FnOnce(&str) -> Result<bool, RustyJackError>,

    requires
        call_requires(confirm, ()),
        forall|p: &str| call_requires(remove, (p,)),
    ensures
        match orphaned_path {
            None => r matches Ok(OrphanedEqMacDriverCleanupResult::NotFound),
            Some(path) => if !interactive {
                r matches Ok(OrphanedEqMacDriverCleanupResult::Recommended { path: p, command: c })
                    && p@ == path@ && c@ == cleanup_command(path@)
            } else {
                exists|answer: Result<bool, RustyJackError>|
                    #![trigger call_ensures(confirm, (), answer)]
                    call_ensures(confirm, (), answer) && match answer {
                        Err(e) => r matches Err(e2) && e2 == e,
                        Ok(false) => r matches Ok(
                            OrphanedEqMacDriverCleanupResult::Skipped { path: p, reason: s },
                        ) && p@ == path@ && s@ == "user declined orphaned eqMac driver removal"@,
                        Ok(true) => exists|target: &str, done: Result<bool, RustyJackError>|
                            #![trigger call_ensures(remove, (target,), done)]
                            target@ == path@ && call_ensures(remove, (target,), done) && match done {
                                Err(e) => r matches Err(e2) && e2 == e,
                                Ok(false) => r matches Err(RustyJackError::Config(m)) && m@
                                    == "failed to remove orphaned eqMac driver with `"@
                                    + cleanup_command(path@) + "`"@,
                                Ok(true) => r matches Ok(
                                    OrphanedEqMacDriverCleanupResult::Removed { path: p },
                                ) && p@ == path@,
                            },
                    }
            },
        },
{
    let path = match orphaned_path {
        Some(p) => p,
        None => {
            return Ok(OrphanedEqMacDriverCleanupResult::NotFound);
        },
    };
    let command = concat2("sudo rm -rf ", path.as_str());
    if !interactive {
        return Ok(OrphanedEqMacDriverCleanupResult::Recommended { path, command });
    }
    match confirm() {
        Err(e) => {
            return Err(e);
        },
        Ok(false) => {
            return Ok(
                OrphanedEqMacDriverCleanupResult::Skipped {
                    path,
                    reason: owned("user declined orphaned eqMac driver removal"),
                },
            );
        },
        Ok(true) => {},
    }
    match remove(path.as_str()) {
        Err(e) => Err(e),
        Ok(false) => Err(
            RustyJackError::Config(
                concat3("failed to remove orphaned eqMac driver with `", command.as_str(), "`"),
            ),
        ),
        Ok(true) => Ok(OrphanedEqMacDriverCleanupResult::Removed { path }),
    }
}

/// Report lines for the cleanup (none when no orphaned driver was found).
pub open spec fn spec_cleanup_lines(result: OrphanedEqMacDriverCleanupResult) -> Seq<Seq<char>> {
    match result {
        OrphanedEqMacDriverCleanupResult::NotFound => seq![],
        OrphanedEqMacDriverCleanupResult::Recommended { path, command } => seq![
            ""@,
            "Orphaned eqMac driver"@,
            "  path:    "@ + path@,
            "  cleanup: "@ + command@,
        ],
        OrphanedEqMacDriverCleanupResult::Removed { path } => seq![
            ""@,
            "Removed orphaned eqMac driver"@,
            "  path: "@ + path@,
        ],
        OrphanedEqMacDriverCleanupResult::Skipped { path, reason } => seq![
            ""@,
            "Kept orphaned eqMac driver"@,
            "  path:   "@ + path@,
            "  reason: "@ + reason@,
        ],
    }
}

pub fn eqmac_cleanup_result_lines(result: &OrphanedEqMacDriverCleanupResult) -> (r: Vec<String>)
    ensures
        texts(r@) == spec_cleanup_lines(*result),
{
    let mut out: Vec<String> = Vec::new();
    match result {
        OrphanedEqMacDriverCleanupResult::NotFound => {},
        OrphanedEqMacDriverCleanupResult::Recommended { path, command } => {
            out.push(owned(""));
            out.push(owned("Orphaned eqMac driver"));
            out.push(concat2("  path:    ", path.as_str()));
            out.push(concat2("  cleanup: ", command.as_str()));
        },
        OrphanedEqMacDriverCleanupResult::Removed { path } => {
            out.push(owned(""));
            out.push(owned("Removed orphaned eqMac driver"));
            out.push(concat2("  path: ", path.as_str()));
        },
        OrphanedEqMacDriverCleanupResult::Skipped { path, reason } => {
            out.push(owned(""));
            out.push(owned("Kept orphaned eqMac driver"));
            out.push(concat2("  path:   ", path.as_str()));
            out.push(concat2("  reason: ", reason.as_str()));
        },
    }
    proof {
        assert(texts(out@) =~= spec_cleanup_lines(*result));
    }
    out
}

} // verus!
