//! Binary version and commit identity.
use crate::text::{concat3, owned, str_eq, trim, trim_str};
use vstd::prelude::*;

verus! {

/// Package version and git commit of a `rusty-jack` binary.
#[derive(Debug, Clone, PartialEq, Eq)]
pub struct BinaryVersion {
    pub version: String,
    pub commit: String,
}

impl BinaryVersion {
    /// Same package version and same commit.
    pub open spec fn same_as(&self, other: &BinaryVersion) -> bool {
        self.version@ == other.version@ && self.commit@ == other.commit@
    }

    pub fn matches(&self, other: &BinaryVersion) -> (r: bool)
        ensures
            r == self.same_as(other),
    {
        str_eq(self.version.as_str(), other.version.as_str()) && str_eq(
            self.commit.as_str(),
            other.commit.as_str(),
        )
    }

    pub open spec fn spec_display(&self) -> Seq<char> {
        self.version@ + " (commit "@ + self.commit@ + ")"@
    }

    /// `VERSION (commit COMMIT)`, as `--version` prints it.
    pub fn display(&self) -> (r: String)
        ensures
            r@ == self.spec_display(),
    {
        let mut r = concat3(self.version.as_str(), " (commit ", self.commit.as_str());
        r.append(")");
        r
    }

    pub fn duplicate(&self) -> (r: BinaryVersion)
        ensures
            r == *self,
    {
        BinaryVersion { version: self.version.clone(), commit: self.commit.clone() }
    }
}

/// Longest commit abbreviation embedded in the binary.
pub const MAX_COMMIT_LEN: usize = 12;

pub open spec fn spec_normalize_commit_hash(commit: Seq<char>) -> Option<Seq<char>> {
    let c = trim(commit);
    if c.len() == 0 {
        None
    } else if c.len() <= 12 {
        Some(c)
    } else {
        Some(c.subrange(0, 12))
    }
}

/// A trimmed commit hash cut to at most 12 characters; `None` when blank.
pub fn normalize_commit_hash(commit: &str) -> (r: Option<String>)
    ensures
        crate::output_device::opt_view(r) == spec_normalize_commit_hash(commit@),
{
    let c = trim_str(commit);
    let n = c.unicode_len();
    if n == 0 {
        None
    } else if n <= MAX_COMMIT_LEN {
        Some(owned(c))
    } else {
        Some(owned(c.substring_char(0, MAX_COMMIT_LEN)))
    }
}

} // verus!
