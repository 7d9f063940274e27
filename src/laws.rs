//! Properties that relate the store's operations, proved over the same
//! spec functions that their contracts use.
use vstd::prelude::*;

use crate::error::StoreError;
use crate::names::{has_double_dot, is_project_char, is_version_char, valid_project_name, valid_version_name};
use crate::paths::{ends_with, join, lemma_join_ends_with};
use crate::store::{
    artifact_result, auth_result, file_result, line_matches, listing_result, lists_token,
    placement_result,
};

verus! {

/// A name that holds a path separator, `..`, or a character outside the
/// allowed set is rejected: as a project name and as a version name.
pub proof fn lemma_unsafe_names_rejected(s: Seq<char>)
    ensures
        (exists|i: int| 0 <= i < s.len() && s[i] == '/') ==> !valid_project_name(s) && !valid_version_name(s),
        has_double_dot(s) ==> !valid_project_name(s) && !valid_version_name(s),
        (exists|i: int| 0 <= i < s.len() && !is_project_char(#[trigger] s[i])) ==> !valid_project_name(s),
        (exists|i: int| 0 <= i < s.len() && !is_version_char(#[trigger] s[i])) ==> !valid_version_name(s),
{
    if exists|i: int| 0 <= i < s.len() && s[i] == '/' {
        let i = choose|i: int| 0 <= i < s.len() && s[i] == '/';
        assert(!is_project_char(s[i]) && !is_version_char(s[i]));
    }
    if has_double_dot(s) {
        let i = choose|i: int| 0 <= i && i + 1 < s.len() && s[i] == '.' && #[trigger] s[i + 1] == '.';
        assert(!is_project_char(s[i]));
    }
}

/// A version directory with exactly one entry resolves to that entry, and
/// its full path ends in it.
pub proof fn lemma_single_entry_resolves(dir: Seq<char>, listing: Result<Vec<String>, String>)
    requires
        listing matches Ok(v) && v@.len() == 1,
    ensures
        file_result(listing) == Ok::<Seq<char>, StoreError>(listing->Ok_0@[0]@),
        artifact_result(dir, listing) == Ok::<Seq<char>, StoreError>(join(dir, listing->Ok_0@[0]@)),
        ends_with(join(dir, listing->Ok_0@[0]@), listing->Ok_0@[0]@),
{
    lemma_join_ends_with(dir, listing->Ok_0@[0]@);
}

/// A version directory that is empty or holds several entries is corrupted,
/// for both resolvers.
pub proof fn lemma_corrupted_version(dir: Seq<char>, listing: Result<Vec<String>, String>)
    requires
        listing matches Ok(v) && v@.len() != 1,
    ensures
        file_result(listing) == Err::<Seq<char>, StoreError>(StoreError::CorruptedVersion),
        artifact_result(dir, listing) == Err::<Seq<char>, StoreError>(StoreError::CorruptedVersion),
{
}

/// Authorization is exact: a token equal to a line is accepted wherever the
/// line stands, and one that equals no line (a part of a line, a line in
/// another case) is refused.
pub proof fn lemma_exact_match(lines: Vec<Option<String>>, token: Seq<char>, denied: StoreError)
    ensures
        forall|i: int| 0 <= i < lines@.len() && (#[trigger] lines@[i] matches Some(l) && l@ == token)
            ==> auth_result(Ok(lines), token, denied) == Ok::<(), StoreError>(()),
        (forall|i: int| 0 <= i < lines@.len() ==> !line_matches(#[trigger] lines@[i], token))
            ==> auth_result(Ok(lines), token, denied) == Err::<(), StoreError>(denied),
{
    assert forall|i: int| 0 <= i < lines@.len() && (#[trigger] lines@[i] matches Some(l) && l@ == token)
        implies auth_result(Ok(lines), token, denied) == Ok::<(), StoreError>(()) by {
        assert(line_matches(lines@[i], token));
        assert(lists_token(lines@, token));
    }
}

/// Versions are written once. After a placement whose artifact was written,
/// the version directory holds that file and a second placement fails with
/// `VersionAlreadyExists`. After one whose artifact never came, the
/// directory is empty and a second placement goes to the same path.
pub proof fn lemma_write_once(
    dir: Seq<char>,
    file: Seq<char>,
    first_probe: Result<Option<Vec<String>>, String>,
    written: Vec<String>,
    left_empty: Vec<String>,
    second_file: Seq<char>,
)
    requires
        placement_result(dir, file, first_probe) is Ok,
        exists|i: int| 0 <= i < written@.len() && (#[trigger] written@[i])@ == file,
        left_empty@.len() == 0,
    ensures
        placement_result(dir, second_file, Ok(Some(written)))
            == Err::<(Seq<char>, Seq<char>, bool), StoreError>(StoreError::VersionAlreadyExists),
        placement_result(dir, file, Ok(Some(left_empty))) == Ok::<(Seq<char>, Seq<char>, bool), StoreError>(
            (dir, join(dir, file), false),
        ),
{
}

/// With no change on disk, two listings give the same names, in any order.
pub proof fn lemma_listing_stable(first: Result<Vec<String>, String>, second: Result<Vec<String>, String>)
    requires
        first matches Ok(a) && second matches Ok(b) && a@.to_set() == b@.to_set(),
    ensures
        listing_result(first) matches Ok(x) && listing_result(second) matches Ok(y) && x@.to_set() == y@.to_set(),
{
}

} // verus!
