use vstd::prelude::*;

use crate::error::StoreError;

verus! {

/// An ASCII letter or digit.
pub open spec fn is_ascii_alnum(c: char) -> bool {
    ('a' <= c && c <= 'z') || ('A' <= c && c <= 'Z') || ('0' <= c && c <= '9')
}

pub open spec fn is_project_char(c: char) -> bool {
    is_ascii_alnum(c) || c == '-' || c == '_'
}

pub open spec fn is_version_char(c: char) -> bool {
    is_ascii_alnum(c) || c == '-' || c == '_' || c == '.'
}

/// `s` holds `..` somewhere.
pub open spec fn has_double_dot(s: Seq<char>) -> bool {
    exists|i: int| 0 <= i && i + 1 < s.len() && s[i] == '.' && #[trigger] s[i + 1] == '.'
}

/// A project name: non-empty, made of `[A-Za-z0-9_-]` only.
pub open spec fn valid_project_name(s: Seq<char>) -> bool {
    &&& s.len() > 0
    &&& forall|i: int| 0 <= i < s.len() ==> is_project_char(#[trigger] s[i])
}

/// A version name: non-empty, made of `[A-Za-z0-9_.-]` only, not starting
/// with `.` and holding no `..`. The two last rules keep `.` and `..` (and
/// hidden entries) out of the versions directory.
pub open spec fn valid_version_name(s: Seq<char>) -> bool {
    &&& s.len() > 0
    &&& s[0] != '.'
    &&& !has_double_dot(s)
    &&& forall|i: int| 0 <= i < s.len() ==> is_version_char(#[trigger] s[i])
}

fn ascii_alnum(c: char) -> (r: bool)
    ensures
        r == is_ascii_alnum(c),
{
    ('a' <= c && c <= 'z') || ('A' <= c && c <= 'Z') || ('0' <= c && c <= '9')
}

/// Whether `s` is a valid project name.
pub fn check_project_name(s: &str) -> (r: bool)
    ensures
        r == valid_project_name(s@),
{
    let n = s.unicode_len();
    if n == 0 {
        return false;
    }
    let mut i: usize = 0;
    while i < n
        invariant
            n == s@.len(),
            i <= n,
            forall|j: int| 0 <= j < i ==> is_project_char(#[trigger] s@[j]),
        decreases n - i,
    {
        let c = s.get_char(i);
        if !(ascii_alnum(c) || c == '-' || c == '_') {
            return false;
        }
        i = i + 1;
    }
    true
}

/// Whether `s` is a valid version name.
pub fn check_version_name(s: &str) -> (r: bool)
    ensures
        r == valid_version_name(s@),
{
    let n = s.unicode_len();
    if n == 0 {
        return false;
    }
    if s.get_char(0) == '.' {
        return false;
    }
    let mut i: usize = 0;
    while i < n
        invariant
            n == s@.len(),
            i <= n,
            forall|j: int| 0 <= j < i ==> is_version_char(#[trigger] s@[j]),
            forall|j: int| 0 <= j && j + 1 < n && j + 1 <= i ==> !(s@[j] == '.' && #[trigger] s@[j + 1] == '.'),
        decreases n - i,
    {
        let c = s.get_char(i);
        if !(ascii_alnum(c) || c == '-' || c == '_' || c == '.') {
            return false;
        }
        if c == '.' && i + 1 < n && s.get_char(i + 1) == '.' {
            assert(s@[i as int] == '.' && s@[i + 1] == '.');
            return false;
        }
        i = i + 1;
    }
    true
}

/// A validated project name.
pub struct Project {
    name: String,
}

impl View for Project {
    type V = Seq<char>;

    closed spec fn view(&self) -> Seq<char> {
        self.name@
    }
}

impl Project {
    #[verifier::type_invariant]
    spec fn inv(&self) -> bool {
        valid_project_name(self.name@)
    }

    /// Accepts `name` exactly when it is a valid project name.
    pub fn new(name: String) -> (r: Result<Project, StoreError>)
        ensures
            r is Ok <==> valid_project_name(name@),
            r matches Ok(p) ==> p@ == name@,
            r matches Err(e) ==> e is InvalidProject,
    {
        if !check_project_name(name.as_str()) {
            return Err(StoreError::InvalidProject);
        }
        Ok(Project { name })
    }

    pub fn name(&self) -> (r: &str)
        ensures
            r@ == self@,
            valid_project_name(self@),
    {
        proof {
            use_type_invariant(self);
        }
        self.name.as_str()
    }
}

/// A validated version name.
pub struct Version {
    name: String,
}

impl View for Version {
    type V = Seq<char>;

    closed spec fn view(&self) -> Seq<char> {
        self.name@
    }
}

impl Version {
    #[verifier::type_invariant]
    spec fn inv(&self) -> bool {
        valid_version_name(self.name@)
    }

    /// Accepts `name` exactly when it is a valid version name.
    pub fn new(name: String) -> (r: Result<Version, StoreError>)
        ensures
            r is Ok <==> valid_version_name(name@),
            r matches Ok(v) ==> v@ == name@,
            r matches Err(e) ==> e is InvalidVersion,
    {
        if !check_version_name(name.as_str()) {
            return Err(StoreError::InvalidVersion);
        }
        Ok(Version { name })
    }

    pub fn name(&self) -> (r: &str)
        ensures
            r@ == self@,
            valid_version_name(self@),
    {
        proof {
            use_type_invariant(self);
        }
        self.name.as_str()
    }
}

} // verus!
