//! Uninstall-time restore of the default output saved before install.
use crate::error::RustyJackError;
use crate::text::{concat2, owned, texts};
use vstd::prelude::*;

verus! {

/// What restoring the pre-install default output did.
#[derive(Debug)]
pub enum RestoreAudioResult {
    Restored { uid: String },
    NotFound,
    Skipped { reason: String },
    Failed { uid: String, message: String },
    Error { message: String },
}

/// Restore the saved pre-install default output (`saved`, as read from state):
/// `set_default` switches to it, and `forget` clears the saved record after a
/// successful switch. A failed switch is reported, not raised.
pub fn restore_audio_best_effort<S, F>(
    saved: Result<Option<String>, RustyJackError>,
    set_default: S,
    forget: F,
) -> (r: Result<RestoreAudioResult, RustyJackError>) where
    S: FnOnce(&str) -> Result<(), RustyJackError>,
    F: FnOnce(),

    requires
        forall|u: &str| call_requires(set_default, (u,)),
        call_requires(forget, ()),
    ensures
        match saved {
            Err(e) => r matches Err(e2) && e2 == e,
            Ok(None) => r matches Ok(RestoreAudioResult::NotFound),
            Ok(Some(uid)) => exists|target: &str, done: Result<(), RustyJackError>|
                #![trigger call_ensures(set_default, (target,), done)]
                target@ == uid@ && call_ensures(set_default, (target,), done) && match done {
                    Ok(_) => r matches Ok(RestoreAudioResult::Restored { uid: u }) && u@ == uid@,
                    Err(e) => r matches Ok(RestoreAudioResult::Failed { uid: u, message: m })
                        && u@ == uid@ && m@ == e.category() + e.detail(),
                },
        },
{
    let uid = match saved {
        Err(e) => {
            return Err(e);
        },
        Ok(None) => {
            return Ok(RestoreAudioResult::NotFound);
        },
        Ok(Some(uid)) => uid,
    };
    match set_default(uid.as_str()) {
        Ok(_) => {
            forget();
            Ok(RestoreAudioResult::Restored { uid })
        },
        Err(e) => Ok(RestoreAudioResult::Failed { uid, message: e.message() }),
    }
}

/// Report of the restore: (standard output lines, warning lines).
pub open spec fn spec_restore_lines(result: RestoreAudioResult) -> (Seq<Seq<char>>, Seq<Seq<char>>) {
    match result {
        RestoreAudioResult::Restored { uid } => (
            seq!["Restored default output"@, "  uid: "@ + uid@],
            seq![],
        ),
        RestoreAudioResult::NotFound => (seq![], seq![]),
        RestoreAudioResult::Skipped { reason } => (
            seq!["Skipped restoring default output"@, "  reason: "@ + reason@],
            seq![],
        ),
        RestoreAudioResult::Failed { uid, message } => (
            seq![],
            seq![
                "Warning: failed to restore default output"@,
                "  uid: "@ + uid@,
                "  error: "@ + message@,
            ],
        ),
        RestoreAudioResult::Error { message } => (
            seq![],
            seq!["Warning: failed to restore default output"@, "  error: "@ + message@],
        ),
    }
}

pub fn restore_audio_result_lines(result: &RestoreAudioResult) -> (r: (Vec<String>, Vec<String>))
    ensures
        texts(r.0@) == spec_restore_lines(*result).0,
        texts(r.1@) == spec_restore_lines(*result).1,
{
    let mut out: Vec<String> = Vec::new();
    let mut err: Vec<String> = Vec::new();
    match result {
        RestoreAudioResult::Restored { uid } => {
            out.push(owned("Restored default output"));
            out.push(concat2("  uid: ", uid.as_str()));
        },
        RestoreAudioResult::NotFound => {},
        RestoreAudioResult::Skipped { reason } => {
            out.push(owned("Skipped restoring default output"));
            out.push(concat2("  reason: ", reason.as_str()));
        },
        RestoreAudioResult::Failed { uid, message } => {
            err.push(owned("Warning: failed to restore default output"));
            err.push(concat2("  uid: ", uid.as_str()));
            err.push(concat2("  error: ", message.as_str()));
        },
        RestoreAudioResult::Error { message } => {
            err.push(owned("Warning: failed to restore default output"));
            err.push(concat2("  error: ", message.as_str()));
        },
    }
    proof {
        assert(texts(out@) =~= spec_restore_lines(*result).0);
        assert(texts(err@) =~= spec_restore_lines(*result).1);
    }
    (out, err)
}

} // verus!
