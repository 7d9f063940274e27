use vstd::prelude::*;

use crate::credential::Credential;
use crate::error::StoreError;
use crate::names::{valid_project_name, Project, Version};
use crate::paths::{check_file_name, join, join_path, valid_file_name};

verus! {

/// `<root>/<project>`.
pub open spec fn project_path(root: Seq<char>, project: Seq<char>) -> Seq<char> {
    join(root, project)
}

/// `<root>/<project>/readers.txt`.
pub open spec fn readers_path(root: Seq<char>, project: Seq<char>) -> Seq<char> {
    join(project_path(root, project), "readers.txt"@)
}

/// `<root>/<project>/writers.txt`.
pub open spec fn writers_path(root: Seq<char>, project: Seq<char>) -> Seq<char> {
    join(project_path(root, project), "writers.txt"@)
}

/// `<root>/<project>/versions`.
pub open spec fn versions_path(root: Seq<char>, project: Seq<char>) -> Seq<char> {
    join(project_path(root, project), "versions"@)
}

/// `<root>/<project>/versions/<version>`.
pub open spec fn version_path(root: Seq<char>, project: Seq<char>, version: Seq<char>) -> Seq<char> {
    join(versions_path(root, project), version)
}

/// One line of an allow-list equals the token exactly; a line that could
/// not be read matches nothing.
pub open spec fn line_matches(line: Option<String>, token: Seq<char>) -> bool {
    match line {
        Some(l) => l@ == token,
        None => false,
    }
}

/// Some line of the allow-list equals the token.
pub open spec fn lists_token(lines: Seq<Option<String>>, token: Seq<char>) -> bool {
    exists|i: int| 0 <= i < lines.len() && line_matches(#[trigger] lines[i], token)
}

/// The outcome of checking a token against an allow-list, given how reading
/// the list went: `denied` when no line matches.
pub open spec fn auth_result(
    allow_list: Result<Vec<Option<String>>, String>,
    token: Seq<char>,
    denied: StoreError,
) -> Result<(), StoreError> {
    match allow_list {
        Err(m) => Err(StoreError::IO(m)),
        Ok(lines) => if lists_token(lines@, token) {
            Ok(())
        } else {
            Err(denied)
        },
    }
}

/// A directory listing as the store reports it.
pub open spec fn listing_result(listing: Result<Vec<String>, String>) -> Result<Vec<String>, StoreError> {
    match listing {
        Ok(v) => Ok(v),
        Err(m) => Err(StoreError::IO(m)),
    }
}

/// The artifact of a version, given the listing of its directory: its only
/// entry, or corruption when it has none or several.
pub open spec fn file_result(listing: Result<Vec<String>, String>) -> Result<Seq<char>, StoreError> {
    match listing {
        Err(m) => Err(StoreError::IO(m)),
        Ok(v) => if v@.len() == 1 {
            Ok(v@[0]@)
        } else {
            Err(StoreError::CorruptedVersion)
        },
    }
}

/// The full path of a version's artifact, in the version directory `dir`.
pub open spec fn artifact_result(dir: Seq<char>, listing: Result<Vec<String>, String>) -> Result<Seq<char>, StoreError> {
    match file_result(listing) {
        Ok(f) => Ok(join(dir, f)),
        Err(e) => Err(e),
    }
}

/// The path to serve for a request that names the artifact `requested` of
/// the version directory `dir`: the artifact's path when the name is its
/// own, `InvalidFile` when it is another.
pub open spec fn content_result(
    dir: Seq<char>,
    requested: Seq<char>,
    listing: Result<Vec<String>, String>,
) -> Result<Seq<char>, StoreError> {
    match file_result(listing) {
        Ok(f) => if f == requested {
            Ok(join(dir, f))
        } else {
            Err(StoreError::InvalidFile)
        },
        Err(e) => Err(e),
    }
}

/// `/project/<project>/version/<version>/file/<file>`.
pub open spec fn download_location(project: Seq<char>, version: Seq<char>, file: Seq<char>) -> Seq<char> {
    "/project/"@ + project + "/version/"@ + version + "/file/"@ + file
}

/// A textual result seen through its characters.
pub open spec fn text_result(r: Result<String, StoreError>) -> Result<Seq<char>, StoreError> {
    match r {
        Ok(s) => Ok(s@),
        Err(e) => Err(e),
    }
}

/// Where an upload goes, and whether its version directory must be created
/// first.
#[derive(Debug, PartialEq, Eq)]
pub struct Placement {
    pub version_dir: String,
    pub file_path: String,
    pub create_dir: bool,
}

pub open spec fn placement_view(r: Result<Placement, StoreError>) -> Result<(Seq<char>, Seq<char>, bool), StoreError> {
    match r {
        Ok(p) => Ok((p.version_dir@, p.file_path@, p.create_dir)),
        Err(e) => Err(e),
    }
}

/// The decision of upload placement for version directory `dir` and file
/// name `file`. `probe` tells how that directory looked: absent (`None`),
/// present with the given entries, or unreadable. A directory with an entry
/// is taken whatever the file name; only then must the file name be a
/// single path component.
pub open spec fn placement_result(
    dir: Seq<char>,
    file: Seq<char>,
    probe: Result<Option<Vec<String>>, String>,
) -> Result<(Seq<char>, Seq<char>, bool), StoreError> {
    match probe {
        Err(m) => Err(StoreError::IO(m)),
        Ok(Some(entries)) if entries@.len() > 0 => Err(StoreError::VersionAlreadyExists),
        Ok(existing) => if !valid_file_name(file) {
            Err(StoreError::InvalidFile)
        } else {
            Ok((dir, join(dir, file), existing is None))
        },
    }
}

/// Whether `token` is exactly one of the allow-list's lines.
pub fn allow_list_contains(lines: &Vec<Option<String>>, token: &String) -> (r: bool)
    ensures
        r == lists_token(lines@, token@),
{
    let mut i: usize = 0;
    while i < lines.len()
        invariant
            i <= lines@.len(),
            forall|j: int| 0 <= j < i ==> !line_matches(#[trigger] lines@[j], token@),
        decreases lines@.len() - i,
    {
        match &lines[i] {
            Some(l) => {
                if l.eq(token) {
                    assert(line_matches(lines@[i as int], token@));
                    return true;
                }
            },
            None => {},
        }
        i = i + 1;
    }
    false
}

/// Proof that the holder may read one project.
pub struct ProjectReader {
    name: String,
}

impl View for ProjectReader {
    type V = Seq<char>;

    closed spec fn view(&self) -> Seq<char> {
        self.name@
    }
}

impl ProjectReader {
    #[verifier::type_invariant]
    spec fn inv(&self) -> bool {
        valid_project_name(self.name@)
    }

    pub fn name(&self) -> (r: &str)
        ensures
            r@ == self@,
            valid_project_name(self@),
    {
        proof {
            use_type_invariant(self);
        }
        self.name.as_str()
    }
}

/// Proof that the holder may write one project (and so read it).
pub struct ProjectWriter {
    name: String,
}

impl View for ProjectWriter {
    type V = Seq<char>;

    closed spec fn view(&self) -> Seq<char> {
        self.name@
    }
}

impl ProjectWriter {
    #[verifier::type_invariant]
    spec fn inv(&self) -> bool {
        valid_project_name(self.name@)
    }

    pub fn name(&self) -> (r: &str)
        ensures
            r@ == self@,
            valid_project_name(self@),
    {
        proof {
            use_type_invariant(self);
        }
        self.name.as_str()
    }

    /// The reader view of the same project: a writer reads without a
    /// second check.
    pub fn reader(&self) -> (r: ProjectReader)
        ensures
            r@ == self@,
    {
        proof {
            use_type_invariant(self);
        }
        ProjectReader { name: self.name.clone() }
    }
}

/// A store rooted at one directory.
pub struct Store {
    dir: String,
}

impl View for Store {
    type V = Seq<char>;

    closed spec fn view(&self) -> Seq<char> {
        self.dir@
    }
}

impl Store {
    pub fn new(dir: String) -> (r: Store)
        ensures
            r@ == dir@,
    {
        Store { dir }
    }

    /// The root directory, whose entries are the projects.
    pub fn root(&self) -> (r: &str)
        ensures
            r@ == self@,
    {
        self.dir.as_str()
    }

    fn project_dir(&self, name: &str) -> (r: String)
        ensures
            r@ == project_path(self@, name@),
    {
        join_path(self.dir.as_str(), name)
    }

    /// The allow-list of readers of `project`.
    pub fn readers_path(&self, project: &Project) -> (r: String)
        ensures
            r@ == readers_path(self@, project@),
    {
        let d = self.project_dir(project.name());
        proof {
            reveal_strlit("readers.txt");
        }
        join_path(d.as_str(), "readers.txt")
    }

    /// The allow-list of writers of `project`.
    pub fn writers_path(&self, project: &Project) -> (r: String)
        ensures
            r@ == writers_path(self@, project@),
    {
        let d = self.project_dir(project.name());
        proof {
            reveal_strlit("writers.txt");
        }
        join_path(d.as_str(), "writers.txt")
    }

    /// Checks `cred` against the readers' allow-list of `project`, as read
    /// from `readers_path`: the lines, or why the file could not be read.
    pub fn authorized_reader(
        &self,
        cred: &Credential,
        project: &Project,
        allow_list: Result<Vec<Option<String>>, String>,
    ) -> (r: Result<(), StoreError>)
        ensures
            r == auth_result(allow_list, cred@, StoreError::UnauthorizedReader),
    {
        match allow_list {
            Err(m) => Err(StoreError::IO(m)),
            Ok(lines) => {
                let token = cred.token_string();
                if allow_list_contains(&lines, &token) {
                    Ok(())
                } else {
                    Err(StoreError::UnauthorizedReader)
                }
            },
        }
    }

    /// Checks `cred` against the writers' allow-list of `project`, as read
    /// from `writers_path`.
    pub fn authorized_writer(
        &self,
        cred: &Credential,
        project: &Project,
        allow_list: Result<Vec<Option<String>>, String>,
    ) -> (r: Result<(), StoreError>)
        ensures
            r == auth_result(allow_list, cred@, StoreError::UnauthorizedWriter),
    {
        match allow_list {
            Err(m) => Err(StoreError::IO(m)),
            Ok(lines) => {
                let token = cred.token_string();
                if allow_list_contains(&lines, &token) {
                    Ok(())
                } else {
                    Err(StoreError::UnauthorizedWriter)
                }
            },
        }
    }

    /// Read access to `project`, granted when some line of its readers'
    /// allow-list equals the token.
    pub fn project_reader(
        &self,
        cred: &Credential,
        project: Project,
        readers: Result<Vec<Option<String>>, String>,
    ) -> (r: Result<ProjectReader, StoreError>)
        ensures
            match r {
                Ok(p) => p@ == project@ && auth_result(readers, cred@, StoreError::UnauthorizedReader) is Ok,
                Err(e) => auth_result(readers, cred@, StoreError::UnauthorizedReader) == Err::<(), StoreError>(e),
            },
    {
        match self.authorized_reader(cred, &project, readers) {
            Ok(()) => {
                let name = project.name().to_owned();
                Ok(ProjectReader { name })
            },
            Err(e) => Err(e),
        }
    }

    /// Write access to `project`, granted when some line of its writers'
    /// allow-list equals the token.
    pub fn project_writer(
        &self,
        cred: &Credential,
        project: Project,
        writers: Result<Vec<Option<String>>, String>,
    ) -> (r: Result<ProjectWriter, StoreError>)
        ensures
            match r {
                Ok(p) => p@ == project@ && auth_result(writers, cred@, StoreError::UnauthorizedWriter) is Ok,
                Err(e) => auth_result(writers, cred@, StoreError::UnauthorizedWriter) == Err::<(), StoreError>(e),
            },
    {
        match self.authorized_writer(cred, &project, writers) {
            Ok(()) => {
                let name = project.name().to_owned();
                Ok(ProjectWriter { name })
            },
            Err(e) => Err(e),
        }
    }

    /// The project names, from a listing of `root`. Every entry counts,
    /// whatever it is.
    pub fn list_projects(&self, listing: Result<Vec<String>, String>) -> (r: Result<Vec<String>, StoreError>)
        ensures
            r == listing_result(listing),
    {
        match listing {
            Ok(v) => Ok(v),
            Err(m) => Err(StoreError::IO(m)),
        }
    }

    /// The directory that holds the versions of `project`.
    pub fn versions_dir(&self, project: &ProjectReader) -> (r: String)
        ensures
            r@ == versions_path(self@, project@),
    {
        let d = self.project_dir(project.name());
        proof {
            reveal_strlit("versions");
        }
        join_path(d.as_str(), "versions")
    }

    /// The directory of one version of `project`.
    pub fn version_dir(&self, project: &ProjectReader, version: &Version) -> (r: String)
        ensures
            r@ == version_path(self@, project@, version@),
    {
        let d = self.versions_dir(project);
        join_path(d.as_str(), version.name())
    }

    /// The version names of `project`, from a listing of `versions_dir`.
    pub fn list_versions(
        &self,
        project: &ProjectReader,
        listing: Result<Vec<String>, String>,
    ) -> (r: Result<Vec<String>, StoreError>)
        ensures
            r == listing_result(listing),
    {
        match listing {
            Ok(v) => Ok(v),
            Err(m) => Err(StoreError::IO(m)),
        }
    }

    /// The artifact's file name, from a fresh listing of `version_dir`.
    pub fn file_for_version(
        &self,
        project: &ProjectReader,
        version: &Version,
        listing: Result<Vec<String>, String>,
    ) -> (r: Result<String, StoreError>)
        ensures
            text_result(r) == file_result(listing),
    {
        match listing {
            Err(m) => Err(StoreError::IO(m)),
            Ok(v) => {
                if v.len() != 1 {
                    Err(StoreError::CorruptedVersion)
                } else {
                    Ok(v[0].clone())
                }
            },
        }
    }

    /// The artifact's full path, from a fresh listing of `version_dir`.
    pub fn path_for_version(
        &self,
        project: &ProjectReader,
        version: &Version,
        listing: Result<Vec<String>, String>,
    ) -> (r: Result<String, StoreError>)
        ensures
            text_result(r) == artifact_result(version_path(self@, project@, version@), listing),
    {
        let dir = self.version_dir(project, version);
        match self.file_for_version(project, version, listing) {
            Ok(f) => Ok(join_path(dir.as_str(), f.as_str())),
            Err(e) => Err(e),
        }
    }

    /// Where a new version's artifact `file_name` goes. `probe` tells how
    /// `version_dir` looked just before: absent, present with its entries,
    /// or unreadable. A directory with an entry is taken: versions are
    /// written once. An empty one is left from an upload that never wrote
    /// its file, and is reused. The probe and the write that follows are
    /// not atomic: two first uploads of one version that run at once may
    /// both be placed, and leave the version corrupted. A version that
    /// already has its artifact is refused before the file name is looked
    /// at. Then, by a deliberate choice of this store, a file name that is
    /// not a single path component is refused with `InvalidFile`, so that
    /// the returned path never leaves the version directory.
    pub fn outpath_for(
        &self,
        project: &ProjectWriter,
        version: &Version,
        file_name: &str,
        probe: Result<Option<Vec<String>>, String>,
    ) -> (r: Result<Placement, StoreError>)
        ensures
            placement_view(r) == placement_result(version_path(self@, project@, version@), file_name@, probe),
    {
        let reader = project.reader();
        let dir = self.version_dir(&reader, version);
        let create_dir = match probe {
            Err(m) => {
                return Err(StoreError::IO(m));
            },
            Ok(None) => true,
            Ok(Some(entries)) => {
                if entries.len() > 0 {
                    return Err(StoreError::VersionAlreadyExists);
                }
                false
            },
        };
        if !check_file_name(file_name) {
            return Err(StoreError::InvalidFile);
        }
        let file_path = join_path(dir.as_str(), file_name);
        Ok(Placement { version_dir: dir, file_path, create_dir })
    }

    /// The path of the artifact that a request names `requested`, from a
    /// fresh listing of `version_dir`.
    pub fn content_path(
        &self,
        project: &ProjectReader,
        version: &Version,
        requested: &str,
        listing: Result<Vec<String>, String>,
    ) -> (r: Result<String, StoreError>)
        ensures
            text_result(r) == content_result(version_path(self@, project@, version@), requested@, listing),
    {
        let dir = self.version_dir(project, version);
        match self.file_for_version(project, version, listing) {
            Ok(f) => {
                let wanted = String::from_str(requested);
                if f.eq(&wanted) {
                    Ok(join_path(dir.as_str(), f.as_str()))
                } else {
                    Err(StoreError::InvalidFile)
                }
            },
            Err(e) => Err(e),
        }
    }

    /// The address under which the artifact `file` of a version is served.
    pub fn download_location(&self, project: &ProjectReader, version: &Version, file: &str) -> (r: String)
        ensures
            r@ == download_location(project@, version@, file@),
    {
        String::from_str("/project/").concat(project.name()).concat("/version/").concat(version.name()).concat(
            "/file/",
        ).concat(file)
    }
}

} // verus!
