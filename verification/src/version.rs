//! The closed, totally ordered set of protocol revisions.

use vstd::prelude::*;
use vstd::string::StringExecFns;

verus! {

/// A frozen protocol revision.  Later revisions order after earlier
/// ones, with the draft last.
#[derive(Debug, Clone, Copy, PartialEq, Eq, PartialOrd, Ord, Hash, Structural)]
pub enum ProtocolVersion {
    V2024_11_05,
    V2025_03_26,
    V2025_06_18,
    Draft,
}

/// The wire name of each revision.
pub open spec fn version_name(version: ProtocolVersion) -> Seq<char> {
    match version {
        ProtocolVersion::V2024_11_05 => "2024-11-05"@,
        ProtocolVersion::V2025_03_26 => "2025-03-26"@,
        ProtocolVersion::V2025_06_18 => "2025-06-18"@,
        ProtocolVersion::Draft => "DRAFT-2025-v3"@,
    }
}

/// The error for a version string outside the supported set.
#[derive(Debug, PartialEq, Eq)]
pub struct ParseProtocolVersionError {
    /// The string that was offered.
    pub details: String,
}

impl ParseProtocolVersionError {
    /// The message the error displays: the offered string and the
    /// published revisions.
    pub fn to_string(&self) -> (r: String)
        ensures
            r@ == "Unsupported protocol version : "@ + self.details@
                + ". Supported versions: 2024-11-05, 2025-03-26, 2025-06-18"@,
    {
        "Unsupported protocol version : ".to_owned().concat(self.details.as_str()).concat(
            ". Supported versions: 2024-11-05, 2025-03-26, 2025-06-18",
        )
    }
}

proof fn lemma_version_literals()
    ensures
        "2024-11-05"@ != "2025-03-26"@,
        "2024-11-05"@ != "2025-06-18"@,
        "2024-11-05"@ != "DRAFT-2025-v3"@,
        "2024-11-05"@ != "DRAFT"@,
        "2025-03-26"@ != "2025-06-18"@,
        "2025-03-26"@ != "DRAFT-2025-v3"@,
        "2025-03-26"@ != "DRAFT"@,
        "2025-06-18"@ != "DRAFT-2025-v3"@,
        "2025-06-18"@ != "DRAFT"@,
        "DRAFT-2025-v3"@ != "DRAFT"@,
{
    reveal_strlit("2024-11-05");
    reveal_strlit("2025-03-26");
    reveal_strlit("2025-06-18");
    reveal_strlit("DRAFT-2025-v3");
    reveal_strlit("DRAFT");
    assert("2024-11-05"@[3] == '4' && "2025-03-26"@[3] == '5' && "2025-06-18"@[3] == '5');
    assert("2025-03-26"@[6] == '3' && "2025-06-18"@[6] == '6');
    assert("2024-11-05"@.len() == 10 && "DRAFT-2025-v3"@.len() == 13 && "DRAFT"@.len() == 5);
}

impl ProtocolVersion {
    /// The published revisions, in order; the draft only on request.
    pub fn supported_versions(include_draft: bool) -> (r: Vec<ProtocolVersion>)
        ensures
            include_draft ==> r@ =~= seq![
                ProtocolVersion::V2024_11_05,
                ProtocolVersion::V2025_03_26,
                ProtocolVersion::V2025_06_18,
                ProtocolVersion::Draft,
            ],
            !include_draft ==> r@ =~= seq![
                ProtocolVersion::V2024_11_05,
                ProtocolVersion::V2025_03_26,
                ProtocolVersion::V2025_06_18,
            ],
    {
        let mut versions: Vec<ProtocolVersion> = Vec::new();
        versions.push(ProtocolVersion::V2024_11_05);
        versions.push(ProtocolVersion::V2025_03_26);
        versions.push(ProtocolVersion::V2025_06_18);
        if include_draft {
            versions.push(ProtocolVersion::Draft);
        }
        versions
    }

    /// The revision's wire name.
    pub fn to_string(&self) -> (r: String)
        ensures
            r@ == version_name(*self),
    {
        match self {
            ProtocolVersion::V2024_11_05 => "2024-11-05".to_owned(),
            ProtocolVersion::V2025_03_26 => "2025-03-26".to_owned(),
            ProtocolVersion::V2025_06_18 => "2025-06-18".to_owned(),
            ProtocolVersion::Draft => "DRAFT-2025-v3".to_owned(),
        }
    }

    /// Reads a revision from its wire name; "DRAFT" is an accepted
    /// alias for the draft revision.  Every other string is rejected,
    /// echoed back in the error.
    pub fn try_from(value: &str) -> (r: Result<ProtocolVersion, ParseProtocolVersionError>)
        ensures
            value@ == "2024-11-05"@ ==> r == Ok::<_, ParseProtocolVersionError>(
                ProtocolVersion::V2024_11_05,
            ),
            value@ == "2025-03-26"@ ==> r == Ok::<_, ParseProtocolVersionError>(
                ProtocolVersion::V2025_03_26,
            ),
            value@ == "2025-06-18"@ ==> r == Ok::<_, ParseProtocolVersionError>(
                ProtocolVersion::V2025_06_18,
            ),
            (value@ == "DRAFT-2025-v3"@ || value@ == "DRAFT"@) ==> r == Ok::<
                _,
                ParseProtocolVersionError,
            >(ProtocolVersion::Draft),
            (value@ != "2024-11-05"@ && value@ != "2025-03-26"@ && value@ != "2025-06-18"@
                && value@ != "DRAFT-2025-v3"@ && value@ != "DRAFT"@) ==> (r matches Err(e)
                && e.details@ == value@),
    {
        proof {
            lemma_version_literals();
        }
        let offered: String = value.to_owned();
        if offered == "2024-11-05".to_owned() {
            Ok(ProtocolVersion::V2024_11_05)
        } else if offered == "2025-03-26".to_owned() {
            Ok(ProtocolVersion::V2025_03_26)
        } else if offered == "2025-06-18".to_owned() {
            Ok(ProtocolVersion::V2025_06_18)
        } else if offered == "DRAFT-2025-v3".to_owned() {
            Ok(ProtocolVersion::Draft)
        } else if offered == "DRAFT".to_owned() {
            Ok(ProtocolVersion::Draft)
        } else {
            Err(ParseProtocolVersionError { details: offered })
        }
    }
}

} // verus!
