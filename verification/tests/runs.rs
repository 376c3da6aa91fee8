use std::collections::{BTreeMap, BTreeSet};

use ezsymlink::engine::{EngineState, LinkProvisioningEngine};
use ezsymlink::outcome::{
    EngineError, IoStage, LinkKind, LinkRequest, Outcome, SymlinkType,
};
use ezsymlink::protocol::{DirEntry, FsReply, FsRequest, Location, Step};

#[derive(Clone, Debug, PartialEq)]
enum Node {
    File(String),
    Dir,
    Link(LinkKind, String),
}

/// A filesystem in memory: trees of files and directories below named roots.
struct Disk {
    nodes: BTreeMap<(String, Vec<String>), Node>,
    /// The roots whose holding directory is there.
    grounded: BTreeSet<String>,
    performed: Vec<FsRequest>,
    refused: Vec<FsRequest>,
}

fn names(parts: &[&str]) -> Vec<String> {
    parts.iter().map(|n| n.to_string()).collect()
}

fn key(root: &str, parts: &[&str]) -> (String, Vec<String>) {
    (root.to_string(), names(parts))
}

fn of(place: &Location) -> (String, Vec<String>) {
    (place.root.clone(), place.relative.clone())
}

impl Disk {
    fn new() -> Disk {
        Disk {
            nodes: BTreeMap::new(),
            grounded: BTreeSet::new(),
            performed: Vec::new(),
            refused: Vec::new(),
        }
    }

    fn grounded(mut self, root: &str) -> Disk {
        self.grounded.insert(root.to_string());
        self
    }

    fn dir(mut self, root: &str, parts: &[&str]) -> Disk {
        self.nodes.insert(key(root, parts), Node::Dir);
        self.grounded(root)
    }

    fn file(mut self, root: &str, parts: &[&str], content: &str) -> Disk {
        self.nodes.insert(key(root, parts), Node::File(content.to_string()));
        self.grounded(root)
    }

    fn refusing(mut self, request: FsRequest) -> Disk {
        self.refused.push(request);
        self
    }

    fn get(&self, root: &str, parts: &[&str]) -> Option<Node> {
        self.nodes.get(&key(root, parts)).cloned()
    }

    fn is_dir(&self, at: &(String, Vec<String>)) -> bool {
        self.nodes.get(at) == Some(&Node::Dir)
    }

    fn perform(&mut self, request: &FsRequest) -> FsReply {
        self.performed.push(request.clone());
        if self.refused.contains(request) {
            return FsReply::Failed("refused".to_string());
        }
        match request {
            FsRequest::Exists { path } => {
                FsReply::Answer(self.nodes.contains_key(&(path.clone(), vec![])))
            }
            FsRequest::IsDir { path } => FsReply::Answer(self.is_dir(&(path.clone(), vec![]))),
            FsRequest::ParentExists { path } => FsReply::Answer(self.grounded.contains(path)),
            FsRequest::CreateParent { path } => {
                self.grounded.insert(path.clone());
                FsReply::Done
            }
            FsRequest::ListDir { dir } => {
                if !self.is_dir(&of(dir)) {
                    return FsReply::Failed("Not a directory".to_string());
                }
                let mut entries = Vec::new();
                for ((root, relative), node) in self.nodes.iter() {
                    if *root == dir.root
                        && relative.len() == dir.relative.len() + 1
                        && relative[..dir.relative.len()] == dir.relative[..]
                    {
                        entries.push(DirEntry {
                            name: relative[dir.relative.len()].clone(),
                            is_dir: *node == Node::Dir,
                        });
                    }
                }
                FsReply::Entries(entries)
            }
            FsRequest::CreateDirAll { dir } => {
                for cut in 0..=dir.relative.len() {
                    let at = (dir.root.clone(), dir.relative[..cut].to_vec());
                    if self.nodes.contains_key(&at) && !self.is_dir(&at) {
                        return FsReply::Failed("File exists".to_string());
                    }
                }
                for cut in 0..=dir.relative.len() {
                    self.nodes.insert((dir.root.clone(), dir.relative[..cut].to_vec()), Node::Dir);
                }
                FsReply::Done
            }
            FsRequest::CopyFile { from, to } => {
                let content = match self.nodes.get(&of(from)) {
                    Some(Node::File(content)) => content.clone(),
                    _ => return FsReply::Failed("No such file".to_string()),
                };
                if let Some(last) = to.relative.len().checked_sub(1) {
                    if !self.is_dir(&(to.root.clone(), to.relative[..last].to_vec())) {
                        return FsReply::Failed("No such directory".to_string());
                    }
                }
                match self.nodes.get(&of(to)) {
                    None | Some(Node::File(_)) => {}
                    _ => return FsReply::Failed("Is a directory".to_string()),
                }
                self.nodes.insert(of(to), Node::File(content));
                FsReply::Done
            }
            FsRequest::RemoveDirAll { path } => {
                if !self.is_dir(&(path.clone(), vec![])) {
                    return FsReply::Failed("Not a directory".to_string());
                }
                self.nodes.retain(|(root, _), _| root != path);
                FsReply::Done
            }
            FsRequest::Symlink { kind, source, destination } => {
                let at = (destination.clone(), vec![]);
                if self.nodes.contains_key(&at) {
                    return FsReply::Failed("File exists".to_string());
                }
                if !self.grounded.contains(destination) {
                    return FsReply::Failed("No such file or directory".to_string());
                }
                self.nodes.insert(at, Node::Link(*kind, source.clone()));
                FsReply::Done
            }
        }
    }
}

/// Performs what the engine asks for until it has an outcome.
fn drive(engine: &mut LinkProvisioningEngine, disk: &mut Disk, first: Step) -> Outcome {
    let mut step = first;
    loop {
        match step {
            Step::Finished(outcome) => return outcome,
            Step::Perform(request) => {
                let reply = disk.perform(&request);
                step = engine.resume(reply).expect("the engine takes the reply to its request");
            }
        }
    }
}

fn request(
    engine: &mut LinkProvisioningEngine,
    disk: &mut Disk,
    source: &str,
    destination: &str,
    requested: SymlinkType,
) -> Outcome {
    let first = engine.request_link(source, destination, requested);
    drive(engine, disk, first)
}

fn confirm(engine: &mut LinkProvisioningEngine, disk: &mut Disk, yes: bool) -> Outcome {
    let first = engine.confirm_merge(yes).expect("a confirmation is awaited");
    drive(engine, disk, first)
}

fn links(engine: &LinkProvisioningEngine) -> Vec<(String, String)> {
    engine
        .recent_links()
        .iter()
        .map(|entry| (entry.source().to_string(), entry.destination().to_string()))
        .collect()
}

fn pair(source: &str, destination: &str) -> (String, String) {
    (source.to_string(), destination.to_string())
}

fn plain_success() -> Outcome {
    Outcome::Success("Symlink created successfully!".to_string())
}

fn merged_success() -> Outcome {
    Outcome::Success("Folders merged and symlink created successfully!".to_string())
}

fn probe(path: &str) -> FsRequest {
    FsRequest::Exists { path: path.to_string() }
}

fn parent_exists(path: &str) -> FsRequest {
    FsRequest::ParentExists { path: path.to_string() }
}

fn create_parent(path: &str) -> FsRequest {
    FsRequest::CreateParent { path: path.to_string() }
}

fn symlink(kind: LinkKind, source: &str, destination: &str) -> FsRequest {
    FsRequest::Symlink { kind, source: source.to_string(), destination: destination.to_string() }
}

fn place(root: &str, parts: &[&str]) -> Location {
    Location { root: root.to_string(), relative: names(parts) }
}

#[test]
fn new_engine_is_idle_and_remembers_nothing() {
    let engine = LinkProvisioningEngine::new();
    assert_eq!(engine.state(), EngineState::Idle);
    assert_eq!(engine.pending(), None);
    assert!(!engine.awaits_confirmation());
    assert!(engine.recent_links().is_empty());
}

#[test]
fn free_destination_gets_one_link_and_one_log_entry() {
    let mut disk =
        Disk::new().dir("/tmp/a", &[]).file("/tmp/a", &["x.txt"], "x").grounded("/tmp/b");
    let before = disk.nodes.clone();
    let mut engine = LinkProvisioningEngine::new();
    let outcome = request(&mut engine, &mut disk, "/tmp/a", "/tmp/b", SymlinkType::Auto);
    assert_eq!(outcome, plain_success());
    let mut expected = before;
    expected.insert(key("/tmp/b", &[]), Node::Link(LinkKind::Directory, "/tmp/a".to_string()));
    assert_eq!(disk.nodes, expected);
    assert_eq!(links(&engine), vec![pair("/tmp/a", "/tmp/b")]);
    assert_eq!(engine.state(), EngineState::Idle);
    assert_eq!(
        disk.performed,
        vec![
            probe("/tmp/a"),
            probe("/tmp/b"),
            parent_exists("/tmp/b"),
            FsRequest::IsDir { path: "/tmp/a".to_string() },
            symlink(LinkKind::Directory, "/tmp/a", "/tmp/b"),
        ]
    );
}

#[test]
fn missing_parent_is_created_before_the_link() {
    let mut disk = Disk::new().dir("/tmp/a", &[]);
    let mut engine = LinkProvisioningEngine::new();
    let outcome = request(&mut engine, &mut disk, "/tmp/a", "/new/deep/b", SymlinkType::File);
    assert_eq!(outcome, plain_success());
    assert!(disk.grounded.contains("/new/deep/b"));
    assert_eq!(
        disk.get("/new/deep/b", &[]),
        Some(Node::Link(LinkKind::File, "/tmp/a".to_string()))
    );
    assert_eq!(
        disk.performed,
        vec![
            probe("/tmp/a"),
            probe("/new/deep/b"),
            parent_exists("/new/deep/b"),
            create_parent("/new/deep/b"),
            symlink(LinkKind::File, "/tmp/a", "/new/deep/b"),
        ]
    );
}

#[test]
fn scenario_directory_source_and_free_destination() {
    let mut disk = Disk::new().dir("/tmp/a", &[]).file("/tmp/a", &["x.txt"], "x");
    let mut engine = LinkProvisioningEngine::new();
    let outcome = request(&mut engine, &mut disk, "/tmp/a", "/tmp/b", SymlinkType::Auto);
    assert!(matches!(outcome, Outcome::Success(_)));
    assert_eq!(
        disk.get("/tmp/b", &[]),
        Some(Node::Link(LinkKind::Directory, "/tmp/a".to_string()))
    );
    assert_eq!(disk.get("/tmp/a", &["x.txt"]), Some(Node::File("x".to_string())));
}

#[test]
fn auto_makes_a_file_link_for_a_file_source() {
    let mut disk = Disk::new().file("/tmp/f.txt", &[], "f");
    let mut engine = LinkProvisioningEngine::new();
    let outcome = request(&mut engine, &mut disk, "/tmp/f.txt", "/tmp/g.txt", SymlinkType::Auto);
    assert_eq!(outcome, plain_success());
    assert_eq!(
        disk.get("/tmp/g.txt", &[]),
        Some(Node::Link(LinkKind::File, "/tmp/f.txt".to_string()))
    );
}

#[test]
fn forced_kinds_do_not_look_at_the_source() {
    let mut disk = Disk::new().dir("/tmp/a", &[]);
    let mut engine = LinkProvisioningEngine::new();
    let outcome = request(&mut engine, &mut disk, "/tmp/a", "/tmp/b", SymlinkType::File);
    assert_eq!(outcome, plain_success());
    assert_eq!(disk.get("/tmp/b", &[]), Some(Node::Link(LinkKind::File, "/tmp/a".to_string())));
    let outcome = request(&mut engine, &mut disk, "/tmp/a", "/tmp/c", SymlinkType::Directory);
    assert_eq!(outcome, plain_success());
    assert_eq!(
        disk.get("/tmp/c", &[]),
        Some(Node::Link(LinkKind::Directory, "/tmp/a".to_string()))
    );
    assert!(!disk.performed.contains(&FsRequest::IsDir { path: "/tmp/a".to_string() }));
}

#[test]
fn empty_source_is_missing_input_and_touches_nothing() {
    let mut disk = Disk::new().dir("/tmp/b", &[]);
    let before = disk.nodes.clone();
    let mut engine = LinkProvisioningEngine::new();
    let outcome = request(&mut engine, &mut disk, "", "/tmp/b", SymlinkType::Auto);
    assert_eq!(outcome, Outcome::Error(EngineError::MissingInput));
    assert_eq!(disk.nodes, before);
    assert!(disk.performed.is_empty());
    assert!(engine.recent_links().is_empty());
    assert_eq!(engine.state(), EngineState::Idle);
}

#[test]
fn empty_destination_is_missing_input_and_touches_nothing() {
    let mut disk = Disk::new().dir("/tmp/a", &[]);
    let before = disk.nodes.clone();
    let mut engine = LinkProvisioningEngine::new();
    let outcome = request(&mut engine, &mut disk, "/tmp/a", "", SymlinkType::Directory);
    assert_eq!(outcome, Outcome::Error(EngineError::MissingInput));
    assert_eq!(disk.nodes, before);
    assert!(disk.performed.is_empty());
}

#[test]
fn missing_source_is_reported_and_touches_nothing() {
    let mut disk = Disk::new().dir("/tmp/b", &[]);
    let before = disk.nodes.clone();
    let mut engine = LinkProvisioningEngine::new();
    let outcome = request(&mut engine, &mut disk, "/tmp/a", "/tmp/b", SymlinkType::Auto);
    assert_eq!(outcome, Outcome::Error(EngineError::SourceNotFound));
    assert_eq!(disk.nodes, before);
    assert_eq!(disk.performed, vec![probe("/tmp/a")]);
    assert!(engine.recent_links().is_empty());
    assert_eq!(engine.state(), EngineState::Idle);
}

#[test]
fn destination_in_the_way_waits_for_confirmation() {
    let mut disk = Disk::new().dir("/tmp/a", &[]).dir("/tmp/b", &[]).file("/tmp/b", &["y"], "y");
    let before = disk.nodes.clone();
    let mut engine = LinkProvisioningEngine::new();
    let outcome = request(&mut engine, &mut disk, "/tmp/a", "/tmp/b", SymlinkType::Auto);
    assert_eq!(outcome, Outcome::ConfirmationRequired);
    assert_eq!(engine.state(), EngineState::ConfirmationPending);
    assert!(engine.awaits_confirmation());
    assert_eq!(
        engine.pending(),
        Some(LinkRequest {
            source: "/tmp/a".to_string(),
            destination: "/tmp/b".to_string(),
            requested: SymlinkType::Auto,
        })
    );
    assert_eq!(disk.nodes, before);
    assert_eq!(disk.performed, vec![probe("/tmp/a"), probe("/tmp/b")]);
    assert!(engine.recent_links().is_empty());
}

#[test]
fn pending_engine_takes_no_reply() {
    let mut disk = Disk::new().dir("/tmp/a", &[]).dir("/tmp/b", &[]);
    let mut engine = LinkProvisioningEngine::new();
    request(&mut engine, &mut disk, "/tmp/a", "/tmp/b", SymlinkType::Auto);
    for reply in [
        FsReply::Done,
        FsReply::Answer(true),
        FsReply::Entries(vec![]),
        FsReply::Failed("no".to_string()),
    ] {
        assert!(!engine.accepts(&reply));
        assert_eq!(engine.resume(reply), None);
        assert_eq!(engine.state(), EngineState::ConfirmationPending);
    }
}

#[test]
fn declined_merge_is_cancelled_and_touches_nothing() {
    let mut disk = Disk::new()
        .dir("/tmp/a", &[])
        .file("/tmp/a", &["x.txt"], "x")
        .dir("/tmp/b", &[])
        .file("/tmp/b", &["y.txt"], "y");
    let before = disk.nodes.clone();
    let mut engine = LinkProvisioningEngine::new();
    request(&mut engine, &mut disk, "/tmp/a", "/tmp/b", SymlinkType::Auto);
    let asked = disk.performed.len();
    let outcome = confirm(&mut engine, &mut disk, false);
    assert_eq!(outcome, Outcome::Error(EngineError::OperationCancelled));
    assert_eq!(disk.nodes, before);
    assert_eq!(disk.performed.len(), asked);
    assert_eq!(engine.state(), EngineState::Idle);
    assert_eq!(engine.pending(), None);
    assert!(engine.recent_links().is_empty());
}

#[test]
fn scenario_confirmed_merge_unites_both_trees() {
    let mut disk = Disk::new()
        .dir("/tmp/a", &[])
        .file("/tmp/a", &["x.txt"], "x")
        .dir("/tmp/b", &[])
        .file("/tmp/b", &["y.txt"], "y");
    let mut engine = LinkProvisioningEngine::new();
    let outcome = request(&mut engine, &mut disk, "/tmp/a", "/tmp/b", SymlinkType::Auto);
    assert_eq!(outcome, Outcome::ConfirmationRequired);
    assert_eq!(engine.state(), EngineState::ConfirmationPending);
    let outcome = confirm(&mut engine, &mut disk, true);
    assert_eq!(outcome, merged_success());
    assert_eq!(disk.get("/tmp/a", &["x.txt"]), Some(Node::File("x".to_string())));
    assert_eq!(disk.get("/tmp/a", &["y.txt"]), Some(Node::File("y".to_string())));
    assert_eq!(
        disk.get("/tmp/b", &[]),
        Some(Node::Link(LinkKind::Directory, "/tmp/a".to_string()))
    );
    assert_eq!(disk.get("/tmp/b", &["y.txt"]), None);
    assert_eq!(links(&engine), vec![pair("/tmp/a", "/tmp/b")]);
    assert_eq!(engine.state(), EngineState::Idle);
}

#[test]
fn merge_keeps_the_structure_below_the_destination() {
    let mut disk = Disk::new()
        .dir("/s", &[])
        .dir("/s", &["shared"])
        .file("/s", &["shared", "old.txt"], "old")
        .dir("/d", &[])
        .dir("/d", &["shared"])
        .file("/d", &["shared", "new.txt"], "new")
        .dir("/d", &["shared", "deep"])
        .file("/d", &["shared", "deep", "leaf"], "leaf")
        .dir("/d", &["empty"])
        .file("/d", &["top"], "top")
        .dir("/other", &[])
        .file("/other", &["keep"], "keep");
    let mut engine = LinkProvisioningEngine::new();
    request(&mut engine, &mut disk, "/s", "/d", SymlinkType::Auto);
    assert_eq!(confirm(&mut engine, &mut disk, true), merged_success());
    let expected = Disk::new()
        .dir("/s", &[])
        .dir("/s", &["shared"])
        .file("/s", &["shared", "old.txt"], "old")
        .file("/s", &["shared", "new.txt"], "new")
        .dir("/s", &["shared", "deep"])
        .file("/s", &["shared", "deep", "leaf"], "leaf")
        .dir("/s", &["empty"])
        .file("/s", &["top"], "top")
        .dir("/other", &[])
        .file("/other", &["keep"], "keep");
    let mut expected = expected.nodes;
    expected.insert(key("/d", &[]), Node::Link(LinkKind::Directory, "/s".to_string()));
    assert_eq!(disk.nodes, expected);
}

#[test]
fn merge_overwrites_a_file_of_the_same_name() {
    let mut disk = Disk::new()
        .dir("/s", &[])
        .file("/s", &["same.txt"], "from source")
        .dir("/d", &[])
        .file("/d", &["same.txt"], "from destination");
    let mut engine = LinkProvisioningEngine::new();
    request(&mut engine, &mut disk, "/s", "/d", SymlinkType::Auto);
    assert_eq!(confirm(&mut engine, &mut disk, true), merged_success());
    assert_eq!(disk.get("/s", &["same.txt"]), Some(Node::File("from destination".to_string())));
}

#[test]
fn merge_asks_in_depth_first_order() {
    let mut disk = Disk::new()
        .dir("/s", &[])
        .dir("/d", &[])
        .dir("/d", &["a"])
        .file("/d", &["a", "f"], "f")
        .file("/d", &["b"], "b");
    let mut engine = LinkProvisioningEngine::new();
    request(&mut engine, &mut disk, "/s", "/d", SymlinkType::Directory);
    let asked = disk.performed.len();
    assert_eq!(confirm(&mut engine, &mut disk, true), merged_success());
    assert_eq!(
        disk.performed[asked..].to_vec(),
        vec![
            FsRequest::ListDir { dir: place("/d", &[]) },
            FsRequest::CreateDirAll { dir: place("/s", &["a"]) },
            FsRequest::ListDir { dir: place("/d", &["a"]) },
            FsRequest::CopyFile { from: place("/d", &["a", "f"]), to: place("/s", &["a", "f"]) },
            FsRequest::CopyFile { from: place("/d", &["b"]), to: place("/s", &["b"]) },
            FsRequest::RemoveDirAll { path: "/d".to_string() },
            parent_exists("/d"),
            symlink(LinkKind::Directory, "/s", "/d"),
        ]
    );
}

#[test]
fn failed_copy_ends_the_merge_and_leaves_the_destination() {
    let refused = FsRequest::CopyFile { from: place("/d", &["b"]), to: place("/s", &["b"]) };
    let mut disk = Disk::new()
        .dir("/s", &[])
        .dir("/d", &[])
        .file("/d", &["a"], "a")
        .file("/d", &["b"], "b")
        .file("/d", &["c"], "c")
        .refusing(refused);
    let mut engine = LinkProvisioningEngine::new();
    request(&mut engine, &mut disk, "/s", "/d", SymlinkType::Auto);
    let outcome = confirm(&mut engine, &mut disk, true);
    assert_eq!(
        outcome,
        Outcome::Error(EngineError::IoError {
            stage: IoStage::Merge,
            detail: "refused".to_string()
        })
    );
    assert_eq!(outcome.message(), Some("Error merging folders: refused".to_string()));
    assert_eq!(disk.get("/d", &[]), Some(Node::Dir));
    assert_eq!(disk.get("/d", &["a"]), Some(Node::File("a".to_string())));
    assert_eq!(disk.get("/d", &["b"]), Some(Node::File("b".to_string())));
    assert_eq!(disk.get("/d", &["c"]), Some(Node::File("c".to_string())));
    assert_eq!(disk.get("/s", &["a"]), Some(Node::File("a".to_string())));
    assert_eq!(disk.get("/s", &["c"]), None);
    assert!(engine.recent_links().is_empty());
    assert_eq!(engine.state(), EngineState::Idle);
}

#[test]
fn destination_that_is_a_file_cannot_be_merged() {
    let mut disk = Disk::new().dir("/s", &[]).file("/d", &[], "d");
    let before = disk.nodes.clone();
    let mut engine = LinkProvisioningEngine::new();
    let outcome = request(&mut engine, &mut disk, "/s", "/d", SymlinkType::Auto);
    assert_eq!(outcome, Outcome::ConfirmationRequired);
    let outcome = confirm(&mut engine, &mut disk, true);
    assert_eq!(
        outcome,
        Outcome::Error(EngineError::IoError {
            stage: IoStage::Merge,
            detail: "Not a directory".to_string()
        })
    );
    assert_eq!(disk.nodes, before);
}

#[test]
fn failed_removal_is_reported_and_no_link_is_made() {
    let mut disk = Disk::new()
        .dir("/s", &[])
        .dir("/d", &[])
        .file("/d", &["a"], "a")
        .refusing(FsRequest::RemoveDirAll { path: "/d".to_string() });
    let mut engine = LinkProvisioningEngine::new();
    request(&mut engine, &mut disk, "/s", "/d", SymlinkType::Auto);
    let outcome = confirm(&mut engine, &mut disk, true);
    assert_eq!(
        outcome.message(),
        Some("Error removing original destination folder: refused".to_string())
    );
    assert_eq!(disk.get("/d", &[]), Some(Node::Dir));
    assert_eq!(disk.get("/s", &["a"]), Some(Node::File("a".to_string())));
    assert!(engine.recent_links().is_empty());
}

#[test]
fn failed_link_after_merge_is_reported() {
    let mut disk = Disk::new()
        .dir("/s", &[])
        .dir("/d", &[])
        .refusing(symlink(LinkKind::Directory, "/s", "/d"));
    let mut engine = LinkProvisioningEngine::new();
    request(&mut engine, &mut disk, "/s", "/d", SymlinkType::Auto);
    let outcome = confirm(&mut engine, &mut disk, true);
    assert_eq!(
        outcome,
        Outcome::Error(EngineError::IoError {
            stage: IoStage::LinkAfterMerge,
            detail: "refused".to_string()
        })
    );
    assert_eq!(outcome.message(), Some("Error creating symlink after merge: refused".to_string()));
    assert_eq!(disk.get("/d", &[]), None);
    assert!(engine.recent_links().is_empty());
}

#[test]
fn failed_link_is_reported_and_not_recorded() {
    let mut disk =
        Disk::new().file("/s", &[], "s").refusing(symlink(LinkKind::File, "/s", "/d"));
    let before = disk.nodes.clone();
    let mut engine = LinkProvisioningEngine::new();
    let outcome = request(&mut engine, &mut disk, "/s", "/d", SymlinkType::Auto);
    assert_eq!(
        outcome,
        Outcome::Error(EngineError::IoError { stage: IoStage::Link, detail: "refused".to_string() })
    );
    assert_eq!(outcome.message(), Some("Error creating symlink: refused".to_string()));
    assert_eq!(disk.nodes, before);
    assert!(engine.recent_links().is_empty());
    assert_eq!(engine.state(), EngineState::Idle);
}

#[test]
fn failed_parent_is_reported_before_any_link() {
    let mut disk = Disk::new().dir("/s", &[]).refusing(create_parent("/p/d"));
    let mut engine = LinkProvisioningEngine::new();
    let outcome = request(&mut engine, &mut disk, "/s", "/p/d", SymlinkType::Auto);
    assert_eq!(outcome.message(), Some("Error creating symlink: refused".to_string()));
    assert_eq!(disk.get("/p/d", &[]), None);
    assert_eq!(
        disk.performed,
        vec![probe("/s"), probe("/p/d"), parent_exists("/p/d"), create_parent("/p/d")]
    );
    assert!(engine.recent_links().is_empty());
    assert_eq!(engine.state(), EngineState::Idle);
}

#[test]
fn failed_parent_after_merge_is_reported_as_such() {
    let mut disk = Disk::new().dir("/s", &[]).dir("/d", &[]).refusing(create_parent("/d"));
    disk.grounded.remove("/d");
    let mut engine = LinkProvisioningEngine::new();
    request(&mut engine, &mut disk, "/s", "/d", SymlinkType::Auto);
    let outcome = confirm(&mut engine, &mut disk, true);
    assert_eq!(outcome.message(), Some("Error creating symlink after merge: refused".to_string()));
}

#[test]
fn six_links_leave_the_last_five_in_the_log() {
    let mut disk = Disk::new().dir("/s", &[]);
    let mut engine = LinkProvisioningEngine::new();
    for i in 1..=6 {
        let destination = format!("/d{}", i);
        let outcome = request(&mut engine, &mut disk, "/s", &destination, SymlinkType::Auto);
        assert_eq!(outcome, plain_success());
        assert!(engine.recent_links().len() <= 5);
        assert_eq!(engine.recent_links().len(), if i < 5 { i } else { 5 });
    }
    assert!(!links(&engine).contains(&pair("/s", "/d1")));
    assert_eq!(
        links(&engine),
        vec![
            pair("/s", "/d2"),
            pair("/s", "/d3"),
            pair("/s", "/d4"),
            pair("/s", "/d5"),
            pair("/s", "/d6")
        ]
    );
}

#[test]
fn failed_requests_leave_the_log_alone() {
    let mut disk = Disk::new().dir("/s", &[]).dir("/taken", &[]);
    let mut engine = LinkProvisioningEngine::new();
    assert_eq!(request(&mut engine, &mut disk, "/s", "/d", SymlinkType::Auto), plain_success());
    request(&mut engine, &mut disk, "", "/d2", SymlinkType::Auto);
    request(&mut engine, &mut disk, "/missing", "/d2", SymlinkType::Auto);
    request(&mut engine, &mut disk, "/s", "/taken", SymlinkType::Auto);
    confirm(&mut engine, &mut disk, false);
    assert_eq!(links(&engine), vec![pair("/s", "/d")]);
}

#[test]
fn engine_goes_through_its_states() {
    let mut engine = LinkProvisioningEngine::new();
    assert_eq!(engine.state(), EngineState::Idle);
    let step = engine.request_link("/s", "/d", SymlinkType::Auto);
    assert_eq!(step, Step::Perform(probe("/s")));
    assert_eq!(engine.state(), EngineState::Validating);
    assert_eq!(engine.resume(FsReply::Answer(true)), Some(Step::Perform(probe("/d"))));
    assert_eq!(engine.state(), EngineState::Validating);
    assert_eq!(
        engine.resume(FsReply::Answer(true)),
        Some(Step::Finished(Outcome::ConfirmationRequired))
    );
    assert_eq!(engine.state(), EngineState::ConfirmationPending);
    assert_eq!(
        engine.confirm_merge(true),
        Some(Step::Perform(FsRequest::ListDir { dir: place("/d", &[]) }))
    );
    assert_eq!(engine.state(), EngineState::Linking);
    assert_eq!(
        engine.resume(FsReply::Entries(vec![])),
        Some(Step::Perform(FsRequest::RemoveDirAll { path: "/d".to_string() }))
    );
    assert_eq!(engine.resume(FsReply::Done), Some(Step::Perform(parent_exists("/d"))));
    assert_eq!(engine.resume(FsReply::Answer(false)), Some(Step::Perform(create_parent("/d"))));
    assert_eq!(
        engine.resume(FsReply::Done),
        Some(Step::Perform(FsRequest::IsDir { path: "/s".to_string() }))
    );
    assert_eq!(
        engine.resume(FsReply::Answer(false)),
        Some(Step::Perform(symlink(LinkKind::File, "/s", "/d")))
    );
    assert_eq!(engine.state(), EngineState::Linking);
    assert_eq!(engine.resume(FsReply::Done), Some(Step::Finished(merged_success())));
    assert_eq!(engine.state(), EngineState::Idle);
    assert_eq!(links(&engine), vec![pair("/s", "/d")]);
}

#[test]
fn engine_takes_only_the_reply_it_waits_for() {
    let mut engine = LinkProvisioningEngine::new();
    assert!(!engine.accepts(&FsReply::Done));
    assert_eq!(engine.resume(FsReply::Answer(true)), None);
    assert_eq!(engine.state(), EngineState::Idle);
    engine.request_link("/s", "/d", SymlinkType::File);
    assert!(engine.accepts(&FsReply::Answer(false)));
    assert!(!engine.accepts(&FsReply::Done));
    assert!(!engine.accepts(&FsReply::Failed("no".to_string())));
    assert_eq!(engine.resume(FsReply::Done), None);
    assert_eq!(engine.resume(FsReply::Entries(vec![])), None);
    assert_eq!(engine.state(), EngineState::Validating);
    assert_eq!(engine.resume(FsReply::Answer(true)), Some(Step::Perform(probe("/d"))));
    assert_eq!(engine.resume(FsReply::Answer(false)), Some(Step::Perform(parent_exists("/d"))));
    assert!(!engine.accepts(&FsReply::Done));
    assert_eq!(engine.resume(FsReply::Answer(false)), Some(Step::Perform(create_parent("/d"))));
    assert!(engine.accepts(&FsReply::Done));
    assert!(engine.accepts(&FsReply::Failed("no".to_string())));
    assert!(!engine.accepts(&FsReply::Answer(true)));
    assert_eq!(engine.resume(FsReply::Answer(true)), None);
    assert_eq!(
        engine.resume(FsReply::Done),
        Some(Step::Perform(symlink(LinkKind::File, "/s", "/d")))
    );
}

#[test]
fn confirmation_is_taken_only_when_awaited() {
    let mut engine = LinkProvisioningEngine::new();
    assert_eq!(engine.confirm_merge(true), None);
    assert_eq!(engine.confirm_merge(false), None);
    assert_eq!(engine.state(), EngineState::Idle);
    engine.request_link("/s", "/d", SymlinkType::Auto);
    assert_eq!(engine.confirm_merge(true), None);
    assert_eq!(engine.state(), EngineState::Validating);
}

#[test]
fn new_request_replaces_the_one_that_waits() {
    let mut disk = Disk::new().dir("/s", &[]).dir("/taken", &[]);
    let mut engine = LinkProvisioningEngine::new();
    let outcome = request(&mut engine, &mut disk, "/s", "/taken", SymlinkType::Auto);
    assert_eq!(outcome, Outcome::ConfirmationRequired);
    let outcome = request(&mut engine, &mut disk, "/s", "/free", SymlinkType::Auto);
    assert_eq!(outcome, plain_success());
    assert_eq!(engine.confirm_merge(true), None);
    assert_eq!(disk.get("/taken", &[]), Some(Node::Dir));
    assert_eq!(links(&engine), vec![pair("/s", "/free")]);
}
