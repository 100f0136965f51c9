//! Resolve a configured device selector to a CoreAudio UID.
use crate::config::{is_placeholder_uid, spec_placeholder};
use crate::output_device::{find_uid, index_of_uid, lemma_index_of_uid, OutputDevice};
use crate::text::{concat3, owned};
use vstd::prelude::*;

verus! {

/// Pick a device by explicit UID.
#[derive(Debug)]
pub struct DeviceSelector {
    pub uid: Option<String>,
}

impl DeviceSelector {
    /// No usable UID: absent, blank, or still the example placeholder.
    pub open spec fn spec_is_empty(&self) -> bool {
        match self.uid {
            None => true,
            Some(u) => spec_placeholder(u@),
        }
    }

    pub fn is_empty(&self) -> (r: bool)
        ensures
            r == self.spec_is_empty(),
    {
        match &self.uid {
            None => true,
            Some(u) => is_placeholder_uid(u.as_str()),
        }
    }
}

/// Outcome of resolving a [`DeviceSelector`] against live devices.
#[derive(Debug)]
pub enum ResolveError {
    NotSpecified,
    UidNotFound(String),
}

impl ResolveError {
    pub open spec fn spec_message(&self) -> Seq<char> {
        match self {
            ResolveError::NotSpecified => "no device selector configured"@,
            ResolveError::UidNotFound(uid) => "no connected output has device uid `"@ + uid@ + "`"@,
        }
    }

    /// Human-readable description of the failure.
    pub fn message(&self) -> (r: String)
        ensures
            r@ == self.spec_message(),
    {
        match self {
            ResolveError::NotSpecified => owned("no device selector configured"),
            ResolveError::UidNotFound(uid) => concat3(
                "no connected output has device uid `",
                uid.as_str(),
                "`",
            ),
        }
    }

    pub fn duplicate(&self) -> (r: ResolveError)
        ensures
            r == *self,
    {
        match self {
            ResolveError::NotSpecified => ResolveError::NotSpecified,
            ResolveError::UidNotFound(uid) => ResolveError::UidNotFound(uid.clone()),
        }
    }
}

/// The UID a selector names, when it names a connected device.
pub open spec fn spec_resolves_to(
    selector: DeviceSelector,
    devices: Seq<OutputDevice>,
) -> Option<Seq<char>> {
    if selector.spec_is_empty() {
        None
    } else if index_of_uid(devices, selector.uid.unwrap()@) is Some {
        Some(selector.uid.unwrap()@)
    } else {
        None
    }
}

/// Resolve selector to a CoreAudio device UID.
pub fn resolve_device_selector(selector: &DeviceSelector, devices: &[OutputDevice]) -> (r: Result<
    String,
    ResolveError,
>)
    ensures
        match r {
            Ok(uid) => spec_resolves_to(*selector, devices@) == Some(uid@),
            Err(ResolveError::NotSpecified) => selector.spec_is_empty(),
            Err(ResolveError::UidNotFound(uid)) => !selector.spec_is_empty() && index_of_uid(
                devices@,
                uid@,
            ) is None && selector.uid == Some(uid),
        },
{
    if selector.is_empty() {
        return Err(ResolveError::NotSpecified);
    }
    let uid = match &selector.uid {
        Some(u) => u,
        None => {
            return Err(ResolveError::NotSpecified);
        },
    };
    proof {
        lemma_index_of_uid(devices@, uid@);
    }
    match find_uid(devices, uid.as_str()) {
        Some(k) => Ok(devices[k].uid.clone()),
        None => Err(ResolveError::UidNotFound(uid.clone())),
    }
}

} // verus!
