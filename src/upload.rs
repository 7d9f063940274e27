//! The decisions of an upload request, around the placement of each part.
use vstd::prelude::*;

use crate::error::{error_text, StoreError};
use crate::names::{valid_version_name, Version};
use crate::store::ProjectWriter;

verus! {

/// The text that acknowledges an upload.
pub open spec fn upload_ack(project: Seq<char>, version: Seq<char>) -> Seq<char> {
    "successful upload of version "@ + version + " for project "@ + project
}

/// The version named by an upload's `version` parameter, which must be
/// present and valid.
pub fn upload_version(param: Option<String>) -> (r: Result<Version, StoreError>)
    ensures
        match param {
            None => r matches Err(e) && e is Other && error_text(e) == "did not provide version"@,
            Some(s) => match r {
                Ok(v) => valid_version_name(s@) && v@ == s@,
                Err(e) => !valid_version_name(s@) && e is InvalidVersion,
            },
        },
{
    match param {
        None => Err(StoreError::Other(String::from_str("did not provide version"))),
        Some(s) => Version::new(s),
    }
}

/// The answer to an upload once its parts are handled: an acknowledgement
/// when a file was written, a failure when none was.
pub fn upload_reply(project: &ProjectWriter, version: &Version, got_file: bool) -> (r: Result<String, StoreError>)
    ensures
        got_file ==> (r matches Ok(m) && m@ == upload_ack(project@, version@)),
        !got_file ==> (r matches Err(e) && e is Other && error_text(e) == "failed to upload"@),
{
    if got_file {
        Ok(String::from_str("successful upload of version ").concat(version.name()).concat(" for project ").concat(
            project.name(),
        ))
    } else {
        Err(StoreError::Other(String::from_str("failed to upload")))
    }
}

} // verus!
