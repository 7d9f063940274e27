use artifact_store::credential::Credential;
use artifact_store::error::StoreError;
use artifact_store::names::{Project, Version};
use artifact_store::store::{allow_list_contains, Placement, ProjectReader, ProjectWriter, Store};
use artifact_store::upload::{upload_reply, upload_version};

fn lines(items: &[&str]) -> Result<Vec<Option<String>>, String> {
    Ok(items.iter().map(|s| Some(s.to_string())).collect())
}

fn names(items: &[&str]) -> Result<Vec<String>, String> {
    Ok(items.iter().map(|s| s.to_string()).collect())
}

fn cred(token: &str) -> Credential {
    Credential::from_authorization(Some(&format!("Bearer {token}"))).ok().unwrap()
}

fn project(name: &str) -> Project {
    Project::new(name.to_string()).ok().unwrap()
}

fn version(name: &str) -> Version {
    Version::new(name.to_string()).ok().unwrap()
}

fn store() -> Store {
    Store::new("/srv/store".to_string())
}

fn reader(s: &Store, name: &str) -> ProjectReader {
    s.project_reader(&cred("tok-r"), project(name), lines(&["tok-r"])).ok().unwrap()
}

fn writer(s: &Store, name: &str) -> ProjectWriter {
    s.project_writer(&cred("tok-w"), project(name), lines(&["tok-w"])).ok().unwrap()
}

#[test]
fn allow_list_paths() {
    let s = store();
    assert_eq!(s.root(), "/srv/store");
    assert_eq!(s.readers_path(&project("acme")), "/srv/store/acme/readers.txt");
    assert_eq!(s.writers_path(&project("acme")), "/srv/store/acme/writers.txt");
    let slash = Store::new("/srv/store/".to_string());
    assert_eq!(slash.readers_path(&project("acme")), "/srv/store/acme/readers.txt");
}

#[test]
fn version_paths() {
    let s = store();
    let r = reader(&s, "acme");
    assert_eq!(r.name(), "acme");
    assert_eq!(s.versions_dir(&r), "/srv/store/acme/versions");
    assert_eq!(s.version_dir(&r, &version("1.0.0")), "/srv/store/acme/versions/1.0.0");
}

#[test]
fn exact_match_authorization() {
    let list = vec![Some("alpha".to_string()), None, Some("tok-r".to_string())];
    assert!(allow_list_contains(&list, &"tok-r".to_string()));
    assert!(allow_list_contains(&list, &"alpha".to_string()));
    assert!(!allow_list_contains(&list, &"tok".to_string()));
    assert!(!allow_list_contains(&list, &"TOK-R".to_string()));
    assert!(!allow_list_contains(&list, &"tok-r ".to_string()));
    assert!(!allow_list_contains(&list, &"".to_string()));
    assert!(!allow_list_contains(&vec![], &"tok-r".to_string()));
}

#[test]
fn authorization_outcomes() {
    let s = store();
    let p = project("acme");
    assert!(s.authorized_reader(&cred("tok-r"), &p, lines(&["x", "tok-r"])).is_ok());
    assert_eq!(
        s.authorized_reader(&cred("Tok-r"), &p, lines(&["tok-r"])),
        Err(StoreError::UnauthorizedReader)
    );
    assert_eq!(
        s.authorized_writer(&cred("tok"), &p, lines(&["tok-w"])),
        Err(StoreError::UnauthorizedWriter)
    );
    assert_eq!(
        s.authorized_writer(&cred("tok-w"), &p, Err("no such file".to_string())),
        Err(StoreError::IO("no such file".to_string()))
    );
    assert!(matches!(
        s.project_reader(&cred("tok-r"), project("acme"), Err("denied".to_string())),
        Err(StoreError::IO(_))
    ));
}

#[test]
fn writer_reads_its_project() {
    let s = store();
    let w = writer(&s, "acme");
    assert_eq!(w.name(), "acme");
    assert_eq!(w.reader().name(), "acme");
}

#[test]
fn listings() {
    let s = store();
    let r = reader(&s, "acme");
    assert_eq!(s.list_projects(names(&["acme", "stray"])), Ok(vec!["acme".to_string(), "stray".to_string()]));
    assert_eq!(s.list_projects(Err("gone".to_string())), Err(StoreError::IO("gone".to_string())));
    assert_eq!(s.list_versions(&r, names(&["1.0.0"])), Ok(vec!["1.0.0".to_string()]));
    assert_eq!(s.list_versions(&r, names(&[])), Ok(vec![]));
}

#[test]
fn listings_are_stable() {
    let s = store();
    let r = reader(&s, "acme");
    let first = s.list_projects(names(&["a", "b"]));
    let second = s.list_projects(names(&["a", "b"]));
    assert_eq!(first, second);
    let mut v1 = s.list_versions(&r, names(&["2", "1"])).unwrap();
    let mut v2 = s.list_versions(&r, names(&["1", "2"])).unwrap();
    v1.sort();
    v2.sort();
    assert_eq!(v1, v2);
}

#[test]
fn single_file_version_resolves() {
    let s = store();
    let r = reader(&s, "acme");
    let v = version("1.0.0");
    assert_eq!(s.file_for_version(&r, &v, names(&["app.bin"])), Ok("app.bin".to_string()));
    let p = s.path_for_version(&r, &v, names(&["app.bin"])).unwrap();
    assert_eq!(p, "/srv/store/acme/versions/1.0.0/app.bin");
    assert!(p.ends_with("app.bin"));
}

#[test]
fn two_file_version_is_corrupted() {
    let s = store();
    let r = reader(&s, "acme");
    let v = version("bad");
    assert_eq!(s.file_for_version(&r, &v, names(&["a", "b"])), Err(StoreError::CorruptedVersion));
    assert_eq!(s.path_for_version(&r, &v, names(&["a", "b"])), Err(StoreError::CorruptedVersion));
}

#[test]
fn empty_version_is_corrupted() {
    let s = store();
    let r = reader(&s, "acme");
    let v = version("empty");
    assert_eq!(s.file_for_version(&r, &v, names(&[])), Err(StoreError::CorruptedVersion));
    assert_eq!(s.path_for_version(&r, &v, names(&[])), Err(StoreError::CorruptedVersion));
    assert_eq!(
        s.path_for_version(&r, &v, Err("unreadable".to_string())),
        Err(StoreError::IO("unreadable".to_string()))
    );
}

#[test]
fn content_path_checks_the_requested_name() {
    let s = store();
    let r = reader(&s, "acme");
    let v = version("1.0.0");
    assert_eq!(
        s.content_path(&r, &v, "app.bin", names(&["app.bin"])),
        Ok("/srv/store/acme/versions/1.0.0/app.bin".to_string())
    );
    assert_eq!(s.content_path(&r, &v, "other.bin", names(&["app.bin"])), Err(StoreError::InvalidFile));
    assert_eq!(s.content_path(&r, &v, "a", names(&["a", "b"])), Err(StoreError::CorruptedVersion));
    assert_eq!(
        s.download_location(&r, &v, "app.bin"),
        "/project/acme/version/1.0.0/file/app.bin"
    );
}

#[test]
fn reader_and_writer_scenario() {
    let s = store();
    let readers = lines(&["tok-r"]);
    let writers = lines(&["tok-w"]);
    let r = s.project_reader(&cred("tok-r"), project("acme"), readers.clone()).ok().unwrap();
    assert_eq!(s.list_versions(&r, names(&[])), Ok(vec![]));
    assert_eq!(
        s.project_writer(&cred("tok-r"), project("acme"), writers.clone()).err(),
        Some(StoreError::UnauthorizedWriter)
    );
    let w = s.project_writer(&cred("tok-w"), project("acme"), writers).ok().unwrap();
    let v = version("1.0.0");
    let placed = s.outpath_for(&w, &v, "app.bin", Ok(None)).unwrap();
    assert_eq!(
        placed,
        Placement {
            version_dir: "/srv/store/acme/versions/1.0.0".to_string(),
            file_path: "/srv/store/acme/versions/1.0.0/app.bin".to_string(),
            create_dir: true,
        }
    );
    assert_eq!(
        s.outpath_for(&w, &v, "app.bin", Ok(Some(vec!["app.bin".to_string()]))),
        Err(StoreError::VersionAlreadyExists)
    );
}

#[test]
fn upload_retry_after_empty_directory() {
    let s = store();
    let w = writer(&s, "acme");
    let v = version("2.0");
    let placed = s.outpath_for(&w, &v, "app.bin", Ok(Some(vec![]))).unwrap();
    assert_eq!(placed.file_path, "/srv/store/acme/versions/2.0/app.bin");
    assert!(!placed.create_dir);
}

#[test]
fn upload_placement_errors() {
    let s = store();
    let w = writer(&s, "acme");
    let v = version("2.0");
    assert_eq!(s.outpath_for(&w, &v, "../escape", Ok(None)), Err(StoreError::InvalidFile));
    assert_eq!(s.outpath_for(&w, &v, "a\\b", Ok(Some(vec![]))), Err(StoreError::InvalidFile));
    assert_eq!(
        s.outpath_for(&w, &v, "../escape", Ok(Some(vec!["app.bin".to_string()]))),
        Err(StoreError::VersionAlreadyExists)
    );
    assert_eq!(s.outpath_for(&w, &v, "", Ok(None)), Err(StoreError::InvalidFile));
    assert_eq!(
        s.outpath_for(&w, &v, "app.bin", Err("denied".to_string())),
        Err(StoreError::IO("denied".to_string()))
    );
}

#[test]
fn upload_request_decisions() {
    let s = store();
    let w = writer(&s, "acme");
    assert_eq!(
        upload_version(None).err(),
        Some(StoreError::Other("did not provide version".to_string()))
    );
    assert_eq!(upload_version(Some("a/b".to_string())).err(), Some(StoreError::InvalidVersion));
    let v = upload_version(Some("1.0.0".to_string())).ok().unwrap();
    assert_eq!(v.name(), "1.0.0");
    assert_eq!(
        upload_reply(&w, &v, true),
        Ok("successful upload of version 1.0.0 for project acme".to_string())
    );
    assert_eq!(upload_reply(&w, &v, false), Err(StoreError::Other("failed to upload".to_string())));
}
