use joat_repo::{
    Deletion, DirInfo, FileRead, FileWrite, Link, LinkId, LinkRecord, LockOutcome, Manifest,
    ManifestRecord, MetaId, RecordWrite, Repo, RepoConfig, RepoErrorKind, SharedPath, Timestamp,
    Trash,
};
use std::collections::{HashMap, HashSet};

fn repo() -> Repo {
    Repo::new(RepoConfig::default("/r", None), LockOutcome::Held)
        .unwrap()
        .unwrap()
}

/// What a caller would keep on disk, kept in memory.
struct Disk {
    links: HashMap<String, LinkRecord>,
    manifests: HashMap<String, ManifestRecord>,
    dirs: HashSet<String>,
}

impl Disk {
    fn new(dirs: &[&str]) -> Disk {
        Disk {
            links: HashMap::new(),
            manifests: HashMap::new(),
            dirs: dirs.iter().map(|d| String::from(*d)).collect(),
        }
    }

    fn link_file(&self, path: &str) -> Option<FileRead<LinkRecord>> {
        self.links.get(path).map(|r| FileRead::Found(r.clone()))
    }

    fn manifest_file(&self, path: &str) -> FileRead<ManifestRecord> {
        match self.manifests.get(path) {
            Some(r) => FileRead::Found(r.clone()),
            None => FileRead::Missing(format!("{path} not found")),
        }
    }

    fn write(&mut self, plan: Vec<RecordWrite>) {
        for write in plan {
            match write {
                RecordWrite::Manifest { path, record } => {
                    self.manifests.insert(path, record);
                }
                RecordWrite::Link { path, record } => {
                    let manifest_path = format!(
                        "/r/data/{}/manifest.yaml",
                        record.meta_id().to_string()
                    );
                    assert!(self.manifests.contains_key(&manifest_path));
                    self.links.insert(path, record);
                }
            }
        }
    }

    fn init(&mut self, repo: &Repo, dir: &str) -> Option<DirInfo> {
        let exists = self.links.contains_key(&repo.link_path(dir).unwrap());
        let made = repo.init(dir, exists).unwrap();
        if let Some(info) = &made {
            self.write(repo.init_writes(info));
        }
        made
    }

    fn link(&mut self, repo: &Repo, meta_id: &MetaId, dir: &str) -> Option<DirInfo> {
        let manifest_file = self.manifest_file(&repo.manifest_path(meta_id));
        let exists = self.links.contains_key(&repo.link_path(dir).unwrap());
        let made = repo.link(meta_id, dir, &manifest_file, exists).unwrap();
        if let Some(info) = &made {
            self.write(repo.link_writes(info));
        }
        made
    }

    fn get(&self, repo: &Repo, dir: &str) -> Option<DirInfo> {
        let link_file = self.link_file(&repo.link_path(dir).unwrap());
        let link = repo.get_link(dir, &link_file).unwrap()?;
        let manifest_file = self.manifest_file(&repo.manifest_path(link.meta_id()));
        repo.get(dir, &link_file, &manifest_file).unwrap()
    }

    fn remove(&mut self, repo: &Repo, dir: &str) -> bool {
        let found = self.get(repo, dir);
        let deleted = match repo.removal(&found) {
            Some(Deletion::File(path)) => self.links.remove(&path).is_some(),
            _ => false,
        };
        repo.remove(&found, deleted).unwrap()
    }

    fn trash(&self, repo: &Repo) -> Trash {
        let mut data_dirs: Vec<String> = self
            .manifests
            .keys()
            .map(|p| String::from(p.strip_suffix("/manifest.yaml").unwrap()))
            .collect();
        data_dirs.sort();
        let entries: Vec<(String, FileRead<ManifestRecord>)> = data_dirs
            .into_iter()
            .map(|d| {
                let file = self.manifest_file(&format!("{d}/manifest.yaml"));
                (d, file)
            })
            .collect();
        let manifests = repo.list_manifests(&entries).unwrap();
        let mut link_paths: Vec<String> = self.links.keys().cloned().collect();
        link_paths.sort();
        let entries: Vec<(String, FileRead<LinkRecord>)> = link_paths
            .into_iter()
            .map(|p| {
                let file = self.link_file(&p).unwrap();
                (p, file)
            })
            .collect();
        let links: Vec<(Link, bool)> = repo
            .list_links(&entries)
            .unwrap()
            .into_iter()
            .map(|l| {
                let exists = self.dirs.contains(l.project_dir());
                (l, exists)
            })
            .collect();
        Trash::compute(&manifests, &links)
    }

    fn empty(&mut self, trash: &mut Trash) {
        for d in trash.deletions() {
            match d {
                Deletion::File(p) => {
                    assert!(self.links.remove(&p).is_some());
                }
                Deletion::Directory(p) => {
                    assert!(self.manifests.remove(&format!("{p}/manifest.yaml")).is_some());
                }
            }
        }
        trash.empty(None).unwrap();
    }
}

#[test]
fn paths_of_links_and_metadirectories() {
    let repo = repo();
    assert_eq!(
        "/r/links/4e684f3599a82f7876f9b6be069bb3f2.yaml",
        repo.link_path("/proj/a").unwrap()
    );
    assert_eq!(
        "/r/links/abc.yaml",
        repo.make_link_path(&LinkId::parse("ABC").unwrap())
    );
    assert_eq!(
        "/r/data/0000000000000000000000000000002a",
        repo.make_data_dir(&MetaId::from_u128(42))
    );
    assert_eq!(
        "/r/data/0000000000000000000000000000002a/manifest.yaml",
        repo.manifest_path(&MetaId::from_u128(42))
    );
    let e = repo.link_path("proj/a").unwrap_err();
    assert_eq!(RepoErrorKind::CouldNotComputeHash, e.kind());
}

#[test]
fn init_with_makes_a_manifest_and_a_link() {
    let repo = repo();
    let info = repo
        .init_with(
            "/proj/a",
            false,
            MetaId::from_u128(42),
            Timestamp::new(10, 1),
            Timestamp::new(11, 2),
        )
        .unwrap()
        .unwrap();
    assert_eq!("/r/data/0000000000000000000000000000002a", info.data_dir());
    assert_eq!(
        "/r/data/0000000000000000000000000000002a/manifest.yaml",
        info.manifest_path()
    );
    assert_eq!(&Timestamp::new(10, 1), info.created_at());
    assert_eq!("/proj/a", info.original_project_dir());
    assert_eq!(42, info.meta_id().as_u128());
    assert_eq!(
        "/r/links/4e684f3599a82f7876f9b6be069bb3f2.yaml",
        info.link_path()
    );
    assert_eq!(&Timestamp::new(11, 2), info.link_created_at());
    assert_eq!("4e684f3599a82f7876f9b6be069bb3f2", info.link_id().as_str());
    assert_eq!("/proj/a", info.project_dir());
    assert_eq!(42, info.link().meta_id().as_u128());
    assert_eq!(42, info.manifest().meta_id().as_u128());
}

#[test]
fn init_does_nothing_where_a_link_exists() {
    let repo = repo();
    assert!(repo.init("/proj/a", true).unwrap().is_none());
    assert!(repo
        .init_with(
            "/proj/a",
            true,
            MetaId::from_u128(1),
            Timestamp::new(0, 0),
            Timestamp::new(0, 0)
        )
        .unwrap()
        .is_none());
}

#[test]
fn init_refuses_a_relative_directory() {
    let repo = repo();
    for exists in [false, true] {
        let e = repo.init("proj/a", exists).unwrap_err();
        assert!(e.is_could_not_compute_hash());
        assert_eq!("Could not compute MD5 hash for path proj/a", e.message());
    }
}

#[test]
fn init_twice_returns_some_then_none() {
    let repo = repo();
    let mut disk = Disk::new(&["/proj/a"]);
    let first = disk.init(&repo, "/proj/a");
    assert!(first.is_some());
    assert_eq!(1, disk.manifests.len());
    assert_eq!(1, disk.links.len());
    let second = disk.init(&repo, "/proj/a");
    assert!(second.is_none());
    assert_eq!(1, disk.manifests.len());
    assert_eq!(1, disk.links.len());
}

#[test]
fn get_after_init_finds_the_same() {
    let repo = repo();
    let mut disk = Disk::new(&["/proj/a"]);
    assert!(disk.get(&repo, "/proj/a").is_none());
    let made = disk.init(&repo, "/proj/a").unwrap();
    let found = disk.get(&repo, "/proj/a").unwrap();
    assert_eq!("/proj/a", found.project_dir());
    assert_eq!(made.meta_id(), found.meta_id());
    assert_eq!(made.link_id(), found.link_id());
    assert_eq!(made.created_at(), found.created_at());
    assert_eq!(made.link_created_at(), found.link_created_at());
    assert_eq!(made.data_dir(), found.data_dir());
    assert_eq!(made.manifest_path(), found.manifest_path());
    assert_eq!(made.link_path(), found.link_path());
    assert_eq!(made.original_project_dir(), found.original_project_dir());
}

fn link_record(dir: &str, id: u128) -> LinkRecord {
    LinkRecord::new(
        Timestamp::new(5, 6),
        LinkId::from_path(dir).unwrap(),
        dir,
        MetaId::from_u128(id),
    )
}

fn manifest_record(dir: &str, id: u128) -> ManifestRecord {
    ManifestRecord::new(Timestamp::new(7, 8), dir, MetaId::from_u128(id))
}

#[test]
fn get_without_a_link_file_is_none() {
    let repo = repo();
    let manifest_file = FileRead::Missing(String::from("unused"));
    assert!(repo.get("/proj/a", &None, &manifest_file).unwrap().is_none());
    assert!(repo.get_link("/proj/a", &None).unwrap().is_none());
}

#[test]
fn get_refuses_a_link_file_for_another_directory() {
    let repo = repo();
    let link_file = Some(FileRead::Found(link_record("/proj/other", 1)));
    let e = repo.get_link("/proj/a", &link_file).unwrap_err();
    assert_eq!(RepoErrorKind::InvalidLinkFile, e.kind());
    assert!(e.is_invalid_link_file());
    assert_eq!(
        "Project directory /proj/other specified in link file /r/links/4e684f3599a82f7876f9b6be069bb3f2.yaml does not match expected directory /proj/a",
        e.message()
    );
    let manifest_file = FileRead::Found(manifest_record("/proj/other", 1));
    let e = repo.get("/proj/a", &link_file, &manifest_file).unwrap_err();
    assert!(e.is_invalid_link_file());
}

#[test]
fn get_fails_where_a_file_cannot_be_read() {
    let repo = repo();
    let manifest_file = FileRead::Found(manifest_record("/proj/a", 1));
    let e = repo
        .get(
            "/proj/a",
            &Some(FileRead::Failed(String::from("bad link"))),
            &manifest_file,
        )
        .unwrap_err();
    assert!(e.is_other());
    assert!(!e.is_not_found());
    assert_eq!("bad link", e.message());

    let e = repo
        .get(
            "/proj/a",
            &Some(FileRead::Missing(String::from("vanished"))),
            &manifest_file,
        )
        .unwrap_err();
    assert!(e.is_other());
    assert!(e.is_not_found());

    let link_file = Some(FileRead::Found(link_record("/proj/a", 1)));
    let e = repo
        .get(
            "/proj/a",
            &link_file,
            &FileRead::Missing(String::from("no manifest")),
        )
        .unwrap_err();
    assert!(e.is_other());
    assert!(e.is_not_found());
    assert_eq!("no manifest", e.message());

    let e = repo
        .get(
            "/proj/a",
            &link_file,
            &FileRead::Failed(String::from("bad manifest")),
        )
        .unwrap_err();
    assert!(e.is_other());
    assert!(!e.is_not_found());

    let e = repo.get("proj/a", &link_file, &manifest_file).unwrap_err();
    assert!(e.is_could_not_compute_hash());
}

#[test]
fn get_puts_link_and_manifest_together() {
    let repo = repo();
    let info = repo
        .get(
            "/proj/a",
            &Some(FileRead::Found(link_record("/proj/a", 3))),
            &FileRead::Found(manifest_record("/elsewhere", 3)),
        )
        .unwrap()
        .unwrap();
    assert_eq!("/proj/a", info.project_dir());
    assert_eq!("/elsewhere", info.original_project_dir());
    assert_eq!("/r/data/00000000000000000000000000000003", info.data_dir());
    assert_eq!(&Timestamp::new(5, 6), info.link_created_at());
    assert_eq!(&Timestamp::new(7, 8), info.created_at());
}

#[test]
fn link_attaches_a_directory_to_a_manifest() {
    let repo = repo();
    let id = MetaId::from_u128(9);
    let manifest_file = FileRead::Found(manifest_record("/proj/a", 9));
    let info = repo
        .link_with(&id, "/proj/b", &manifest_file, false, Timestamp::new(20, 0))
        .unwrap()
        .unwrap();
    assert_eq!("/proj/b", info.project_dir());
    assert_eq!("/proj/a", info.original_project_dir());
    assert_eq!(9, info.meta_id().as_u128());
    assert_eq!(9, info.link().meta_id().as_u128());
    assert_eq!(&Timestamp::new(20, 0), info.link_created_at());
    assert_eq!(
        "/r/links/2e751e7cf06a335f85c9afa7a4d99495.yaml",
        info.link_path()
    );
    assert_eq!("/r/data/00000000000000000000000000000009", info.data_dir());

    assert!(repo
        .link(&id, "/proj/b", &manifest_file, true)
        .unwrap()
        .is_none());
    let made = repo.link(&id, "/proj/b", &manifest_file, false).unwrap().unwrap();
    assert_eq!("/proj/b", made.project_dir());
}

#[test]
fn link_fails_first_on_an_unreadable_manifest() {
    let repo = repo();
    let id = MetaId::from_u128(9);
    let e = repo
        .link(&id, "relative", &FileRead::Missing(String::from("none")), true)
        .unwrap_err();
    assert!(e.is_other());
    assert!(e.is_not_found());
    let e = repo
        .link(&id, "/proj/b", &FileRead::Failed(String::from("broken")), false)
        .unwrap_err();
    assert!(e.is_other());
    assert_eq!("broken", e.message());
    let e = repo
        .link(
            &id,
            "relative",
            &FileRead::Found(manifest_record("/proj/a", 9)),
            true,
        )
        .unwrap_err();
    assert!(e.is_could_not_compute_hash());
}

#[test]
fn reading_links_and_manifests() {
    let repo = repo();
    let found = repo
        .read_link("/proj/a", &FileRead::Found(link_record("/proj/zzz", 1)))
        .unwrap()
        .unwrap();
    assert_eq!(
        "/r/links/4e684f3599a82f7876f9b6be069bb3f2.yaml",
        found.link_path()
    );
    assert_eq!("/proj/zzz", found.project_dir());
    assert!(repo
        .read_link("/proj/a", &FileRead::Missing(String::from("m")))
        .unwrap()
        .is_none());
    assert!(repo
        .read_link("/proj/a", &FileRead::Failed(String::from("m")))
        .unwrap_err()
        .is_other());
    assert!(repo
        .read_link("proj/a", &FileRead::Missing(String::from("m")))
        .unwrap_err()
        .is_could_not_compute_hash());
    let l = repo
        .read_link_from_link_path("/x/y.yaml", &FileRead::Found(link_record("/p", 1)))
        .unwrap()
        .unwrap();
    assert_eq!("/x/y.yaml", l.link_path());

    let m = repo
        .read_manifest(
            &MetaId::from_u128(1),
            &FileRead::Found(manifest_record("/p", 1)),
        )
        .unwrap();
    assert_eq!("/r/data/00000000000000000000000000000001", m.data_dir());
    assert_eq!(
        "/r/data/00000000000000000000000000000001/manifest.yaml",
        m.manifest_path()
    );
    let m = repo
        .read_manifest_from_datadir("/d", &FileRead::Found(manifest_record("/p", 1)))
        .unwrap();
    assert_eq!("/d", m.data_dir());
    assert_eq!("/d/manifest.yaml", m.manifest_path());
    let e = repo
        .read_manifest_from_datadir("/d", &FileRead::Missing(String::from("m")))
        .unwrap_err();
    assert!(e.is_not_found());
    let e = repo
        .read_manifest(&MetaId::from_u128(1), &FileRead::Failed(String::from("m")))
        .unwrap_err();
    assert!(e.is_other());
    assert!(!e.is_not_found());
}

#[test]
fn listing_links_skips_what_is_gone() {
    let repo = repo();
    let entries = vec![
        (String::from("/r/links/a.yaml"), FileRead::Found(link_record("/a", 1))),
        (String::from("/r/links/b.yaml"), FileRead::Missing(String::from("gone"))),
        (String::from("/r/links/c.yaml"), FileRead::Found(link_record("/c", 2))),
    ];
    let links = repo.list_links(&entries).unwrap();
    assert_eq!(2, links.len());
    assert_eq!("/r/links/a.yaml", links[0].link_path());
    assert_eq!("/a", links[0].project_dir());
    assert_eq!("/r/links/c.yaml", links[1].link_path());
    assert_eq!("/c", links[1].project_dir());
    assert!(repo.list_links(&vec![]).unwrap().is_empty());
}

#[test]
fn listing_links_fails_on_a_broken_file() {
    let repo = repo();
    let entries = vec![
        (String::from("/r/links/a.yaml"), FileRead::Found(link_record("/a", 1))),
        (String::from("/r/links/b.yaml"), FileRead::Failed(String::from("first"))),
        (String::from("/r/links/c.yaml"), FileRead::Failed(String::from("second"))),
    ];
    let e = repo.list_links(&entries).unwrap_err();
    assert!(e.is_other());
    assert_eq!("first", e.message());
}

#[test]
fn listing_manifests_needs_every_manifest() {
    let repo = repo();
    let entries = vec![
        (String::from("/r/data/x"), FileRead::Found(manifest_record("/a", 1))),
        (String::from("/r/data/y"), FileRead::Found(manifest_record("/b", 2))),
    ];
    let manifests = repo.list_manifests(&entries).unwrap();
    assert_eq!(2, manifests.len());
    assert_eq!("/r/data/x", manifests[0].data_dir());
    assert_eq!("/r/data/x/manifest.yaml", manifests[0].manifest_path());
    assert_eq!(2, manifests[1].meta_id().as_u128());

    let entries = vec![
        (String::from("/r/data/x"), FileRead::Found(manifest_record("/a", 1))),
        (String::from("/r/data/y"), FileRead::Missing(String::from("no manifest"))),
    ];
    let e = repo.list_manifests(&entries).unwrap_err();
    assert!(e.is_other());
    assert!(e.is_not_found());
    assert_eq!("no manifest", e.message());
}

#[test]
fn remove_reports_what_happened() {
    let repo = repo();
    assert!(!repo.remove(&None, false).unwrap());
    assert!(!repo.remove(&None, true).unwrap());
    let info = repo.init("/proj/a", false).unwrap();
    assert!(repo.remove(&info, true).unwrap());
    let e = repo.remove(&info, false).unwrap_err();
    assert!(e.is_could_not_delete_file());
    assert_eq!(
        "Could not delete file /r/links/4e684f3599a82f7876f9b6be069bb3f2.yaml",
        e.message()
    );
}

#[test]
fn remove_deletes_the_link_file_and_nothing_else() {
    let repo = repo();
    assert!(repo.removal(&None).is_none());
    let info = repo.init("/proj/a", false).unwrap();
    match repo.removal(&info) {
        Some(Deletion::File(path)) => {
            assert_eq!("/r/links/4e684f3599a82f7876f9b6be069bb3f2.yaml", path);
        }
        _ => panic!("the link file is to be deleted"),
    }
}

#[test]
fn init_writes_the_manifest_before_the_link() {
    let repo = repo();
    let info = repo
        .init_with(
            "/proj/a",
            false,
            MetaId::from_u128(42),
            Timestamp::new(10, 1),
            Timestamp::new(11, 2),
        )
        .unwrap()
        .unwrap();
    let plan = repo.init_writes(&info);
    assert_eq!(2, plan.len());
    match &plan[0] {
        RecordWrite::Manifest { path, record } => {
            assert_eq!("/r/data/0000000000000000000000000000002a/manifest.yaml", path);
            assert_eq!(plan[0].path(), path);
            assert_eq!(&Timestamp::new(10, 1), record.created_at());
            assert_eq!("/proj/a", record.original_project_dir());
            assert_eq!(42, record.meta_id().as_u128());
        }
        _ => panic!("the manifest is written first"),
    }
    match &plan[1] {
        RecordWrite::Link { path, record } => {
            assert_eq!("/r/links/4e684f3599a82f7876f9b6be069bb3f2.yaml", path);
            assert_eq!(plan[1].path(), path);
            assert_eq!(&Timestamp::new(11, 2), record.created_at());
            assert_eq!("/proj/a", record.project_dir());
            assert_eq!("4e684f3599a82f7876f9b6be069bb3f2", record.link_id().as_str());
            assert_eq!(42, record.meta_id().as_u128());
        }
        _ => panic!("the link is written second"),
    }
}

#[test]
fn link_writes_the_link_alone() {
    let repo = repo();
    let info = repo
        .link_with(
            &MetaId::from_u128(9),
            "/proj/b",
            &FileRead::Found(manifest_record("/proj/a", 9)),
            false,
            Timestamp::new(20, 0),
        )
        .unwrap()
        .unwrap();
    let plan = repo.link_writes(&info);
    assert_eq!(1, plan.len());
    match &plan[0] {
        RecordWrite::Link { path, record } => {
            assert_eq!("/r/links/2e751e7cf06a335f85c9afa7a4d99495.yaml", path);
            assert_eq!("/proj/b", record.project_dir());
            assert_eq!(9, record.meta_id().as_u128());
        }
        _ => panic!("only the link is written"),
    }
}

#[test]
fn purge_deletes_data_before_control_files() {
    let repo = repo();
    let plan: Vec<(bool, String)> = repo
        .purge_plan()
        .into_iter()
        .map(|d| match d {
            Deletion::File(p) => (true, p),
            Deletion::Directory(p) => (false, p),
        })
        .collect();
    assert_eq!(
        vec![
            (false, String::from("/r/shared")),
            (false, String::from("/r/data")),
            (false, String::from("/r/links")),
            (true, String::from("/r/config.yaml")),
            (true, String::from("/r/.lock")),
        ],
        plan
    );
    assert!(repo.purge(None).is_ok());
    assert!(repo.purge(Some(5)).is_ok());
    let expected = [
        "Could not delete directory /r/shared",
        "Could not delete directory /r/data",
        "Could not delete directory /r/links",
        "Could not delete file /r/config.yaml",
        "Could not delete file /r/.lock",
    ];
    for (k, message) in expected.iter().enumerate() {
        assert_eq!(*message, repo.purge(Some(k)).unwrap_err().message());
    }
}

/// Resolves `path` on a disk without symbolic links, where every path is
/// its own canonical form.
fn resolve_plainly(repo: &Repo, path: &str) -> Result<String, joat_repo::RepoError> {
    let path = SharedPath::new(path);
    let target = repo.shared_target(&path)?;
    repo.resolve_shared_path(&path, repo.shared_dir(), Some(&target))
}

#[test]
fn shared_paths_stay_in_the_shared_directory() {
    let repo = repo();
    for (path, target) in [
        ("a.txt", "/r/shared/a.txt"),
        ("a/b/c.txt", "/r/shared/a/b/c.txt"),
        ("./a.txt", "/r/shared/a.txt"),
        ("a/../b.txt", "/r/shared/b.txt"),
        ("a/./b.txt", "/r/shared/a/b.txt"),
        ("/r/shared/x", "/r/shared/x"),
        ("", "/r/shared"),
    ] {
        assert_eq!(target, repo.shared_target(&SharedPath::new(path)).unwrap());
        assert_eq!(target, resolve_plainly(&repo, path).unwrap());
    }
}

#[test]
fn shared_paths_that_escape_are_refused() {
    let repo = repo();
    for path in [
        "..",
        "../x",
        "../shared2/x",
        "a/../../x",
        "/etc/passwd",
        "/r/sharedx",
        "/r",
        "../../..",
    ] {
        let e = repo.shared_target(&SharedPath::new(path)).unwrap_err();
        assert_eq!(RepoErrorKind::InvalidSharedPath, e.kind());
        let e = repo
            .resolve_shared_path(&SharedPath::new(path), "/r/shared", Some("/r/shared/x"))
            .unwrap_err();
        assert_eq!(RepoErrorKind::InvalidSharedPath, e.kind());
        assert!(e.is_invalid_shared_path());
        assert_eq!(format!("Invalid shared path {path}"), e.message());
    }
}

#[test]
fn a_symbolic_link_out_of_the_shared_directory_is_refused() {
    let repo = repo();
    let path = SharedPath::new("l/x");
    assert_eq!("/r/shared/l/x", repo.shared_target(&path).unwrap());
    let e = repo
        .resolve_shared_path(&path, "/r/shared", Some("/outside/x"))
        .unwrap_err();
    assert_eq!(RepoErrorKind::InvalidSharedPath, e.kind());
    assert_eq!("Invalid shared path l/x", e.message());

    let e = repo
        .read_shared_file(
            &path,
            "/r/shared",
            Some("/outside/x"),
            FileRead::Found(String::from("secret")),
        )
        .unwrap_err();
    assert!(e.is_invalid_shared_path());
    let e = repo
        .write_shared_file(&path, "/r/shared", Some("/outside/x"), FileWrite::Done)
        .unwrap_err();
    assert!(e.is_invalid_shared_path());

    let e = repo
        .resolve_shared_path(&path, "/r/shared", None)
        .unwrap_err();
    assert!(e.is_invalid_shared_path());
}

#[test]
fn a_shared_directory_behind_a_symbolic_link_is_followed() {
    let repo = repo();
    let path = SharedPath::new("a/b.txt");
    assert_eq!(
        "/r/shared/a/b.txt",
        repo.resolve_shared_path(&path, "/mnt/real", Some("/mnt/real/a/b.txt"))
            .unwrap()
    );
    assert_eq!(
        "/r/shared/a/b.txt",
        repo.resolve_shared_path(&path, "/mnt/real/", Some("/mnt/real/a/b.txt"))
            .unwrap()
    );
    assert!(repo
        .resolve_shared_path(&path, "/mnt/real", Some("/mnt/realm/a/b.txt"))
        .unwrap_err()
        .is_invalid_shared_path());
}

#[test]
fn resolve_target_decides_on_containment() {
    let repo = repo();
    let path = SharedPath::new("p");
    assert_eq!(
        "/r/shared/q",
        repo.resolve_target(
            &path,
            Some(String::from("/r/shared/q")),
            "/r/shared",
            Some("/r/shared/q")
        )
        .unwrap()
    );
    assert!(repo
        .resolve_target(
            &path,
            Some(String::from("/r/else")),
            "/r/shared",
            Some("/r/shared/q")
        )
        .unwrap_err()
        .is_invalid_shared_path());
    assert!(repo
        .resolve_target(
            &path,
            Some(String::from("/r/shared/q")),
            "/r/shared",
            Some("/elsewhere/q")
        )
        .unwrap_err()
        .is_invalid_shared_path());
    assert!(repo
        .resolve_target(&path, None, "/r/shared", Some("/r/shared/q"))
        .unwrap_err()
        .is_invalid_shared_path());
    assert!(repo
        .resolve_target(&path, Some(String::from("/r/shared/q")), "/r/shared", None)
        .unwrap_err()
        .is_invalid_shared_path());
}

#[test]
fn reading_shared_files() {
    let repo = repo();
    let path = SharedPath::new("a.txt");
    let seen = Some("/r/shared/a.txt");
    assert_eq!(
        Some(String::from("content")),
        repo.read_shared_file(
            &path,
            "/r/shared",
            seen,
            FileRead::Found(String::from("content"))
        )
        .unwrap()
    );
    assert_eq!(
        None,
        repo.read_shared_file(
            &path,
            "/r/shared",
            seen,
            FileRead::Missing(String::from("none"))
        )
        .unwrap()
    );
    let e = repo
        .read_shared_file(
            &path,
            "/r/shared",
            seen,
            FileRead::Failed(String::from("denied")),
        )
        .unwrap_err();
    assert!(e.is_other());
    assert_eq!("denied", e.message());
    let e = repo
        .read_shared_file(
            &SharedPath::new("../a.txt"),
            "/r/shared",
            Some("/r/a.txt"),
            FileRead::Found(String::from("content")),
        )
        .unwrap_err();
    assert!(e.is_invalid_shared_path());
}

#[test]
fn writing_shared_files() {
    let repo = repo();
    let path = SharedPath::new("a.txt");
    let seen = Some("/r/shared/a.txt");
    assert!(repo
        .write_shared_file(&path, "/r/shared", seen, FileWrite::Done)
        .is_ok());
    let e = repo
        .write_shared_file(
            &path,
            "/r/shared",
            seen,
            FileWrite::Failed(String::from("full")),
        )
        .unwrap_err();
    assert!(e.is_other());
    assert_eq!("full", e.message());
    let e = repo
        .write_shared_file(
            &SharedPath::new("/etc/x"),
            "/r/shared",
            Some("/etc/x"),
            FileWrite::Done,
        )
        .unwrap_err();
    assert!(e.is_invalid_shared_path());
}

#[test]
fn two_links_one_manifest_scenario() {
    let repo = repo();
    let mut disk = Disk::new(&["/proj/a", "/proj/b"]);

    let first = disk.init(&repo, "/proj/a").unwrap();
    let m1 = *first.meta_id();
    let second = disk.link(&repo, &m1, "/proj/b").unwrap();
    assert_eq!(m1, *second.meta_id());
    assert_eq!(1, disk.manifests.len());
    assert_eq!(2, disk.links.len());
    assert!(disk.trash(&repo).is_empty());
    assert!(disk.link(&repo, &m1, "/proj/b").is_none());

    disk.dirs.remove("/proj/a");
    let trash = disk.trash(&repo);
    assert_eq!(1, trash.invalid_links.len());
    assert_eq!("/proj/a", trash.invalid_links[0].project_dir());
    assert!(trash.unreferenced_manifests.is_empty());

    assert!(disk.remove(&repo, "/proj/b"));
    assert!(!disk.remove(&repo, "/proj/b"));
    assert_eq!(1, disk.links.len());
    assert_eq!(1, disk.manifests.len());
    let mut trash = disk.trash(&repo);
    assert_eq!(1, trash.invalid_links.len());
    assert_eq!("/proj/a", trash.invalid_links[0].project_dir());
    assert_eq!(1, trash.unreferenced_manifests.len());
    assert_eq!(m1, *trash.unreferenced_manifests[0].meta_id());

    disk.empty(&mut trash);
    assert!(trash.is_empty());
    assert!(disk.links.is_empty());
    assert!(disk.manifests.is_empty());
    assert!(disk.trash(&repo).is_empty());
}

#[test]
fn manifests_are_listed_as_they_were_written() {
    let repo = repo();
    let mut disk = Disk::new(&["/proj/a"]);
    let made = disk.init(&repo, "/proj/a").unwrap();
    let listed: Manifest = repo
        .list_manifests(&vec![(
            String::from(made.data_dir()),
            disk.manifest_file(made.manifest_path()),
        )])
        .unwrap()
        .remove(0);
    assert_eq!(made.data_dir(), listed.data_dir());
    assert_eq!(made.manifest_path(), listed.manifest_path());
    assert_eq!(made.meta_id(), listed.meta_id());
    assert_eq!(made.created_at(), listed.created_at());
    assert_eq!(made.original_project_dir(), listed.original_project_dir());
}
