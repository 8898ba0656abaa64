use std::collections::BTreeMap;
use std::io::{Cursor, Write};

use nyaterm_portable::actions::{ActionOutcome, EntryKind, FileAction, Slot};
use nyaterm_portable::archive::PayloadReader;
use nyaterm_portable::commit::CommitMachine;
use nyaterm_portable::error::UpdateError;
use nyaterm_portable::layout::{is_stale_mcp_backup_name, portable_target_for_arch, LEGACY_MCP_BACKUP, MCP_BACKUP_PREFIX};
use nyaterm_portable::payload::PayloadFile;
use nyaterm_portable::replace::ReplaceMachine;

use zip::write::SimpleFileOptions;

fn archive(entries: &[(&str, &[u8])]) -> Vec<u8> {
    let cursor = Cursor::new(Vec::new());
    let mut writer = zip::ZipWriter::new(cursor);
    for (name, bytes) in entries {
        writer.start_file(*name, SimpleFileOptions::default()).unwrap();
        writer.write_all(bytes).unwrap();
    }
    writer.finish().unwrap().into_inner()
}

/// Extracts an archive into memory, keyed by the path below the portable root.
fn extract(bytes: &[u8]) -> Result<BTreeMap<String, Vec<u8>>, UpdateError> {
    let mut reader = PayloadReader::open(bytes)?;
    let mut files = BTreeMap::new();
    while let Some(file) = reader.next_file()? {
        files.insert(file.file.relative_path().join("/"), file.data);
    }
    reader.finish()?;
    Ok(files)
}

/// An in-memory installation directory that performs the protocol's operations.
#[derive(Clone, Debug, PartialEq)]
enum Node {
    File(&'static str),
    Dir(&'static str),
}

struct FakeFs {
    slots: BTreeMap<String, Node>,
    fail_move_from: Option<Slot>,
    /// Other entries of the installation directory, by name.
    others: BTreeMap<String, Node>,
}

fn key(slot: Slot) -> String {
    format!("{slot:?}")
}

impl FakeFs {
    fn new() -> FakeFs {
        FakeFs { slots: BTreeMap::new(), fail_move_from: None, others: BTreeMap::new() }
    }

    fn set(&mut self, slot: Slot, node: Node) {
        self.slots.insert(key(slot), node);
    }

    fn get(&self, slot: Slot) -> Option<Node> {
        self.slots.get(&key(slot)).cloned()
    }

    fn rename(&mut self, from: Slot, to: Slot) -> ActionOutcome {
        match (self.get(from), self.get(to)) {
            (None, _) => ActionOutcome::Failed("not found".to_string()),
            (Some(Node::Dir(_)), Some(_)) | (Some(Node::File(_)), Some(Node::Dir(_))) => {
                ActionOutcome::Failed("destination exists".to_string())
            }
            (Some(node), _) => {
                self.slots.remove(&key(from));
                self.set(to, node);
                ActionOutcome::Succeeded
            }
        }
    }

    fn perform(&mut self, action: FileAction) -> ActionOutcome {
        match action {
            FileAction::Inspect(slot) => ActionOutcome::Inspected(match self.get(slot) {
                None => EntryKind::Missing,
                Some(Node::File(_)) => EntryKind::File,
                Some(Node::Dir(_)) => EntryKind::Directory,
            }),
            FileAction::CleanStaleMcpBackups => {
                // Files are removed; a directory cannot be removed as a file and stays.
                let mut outcome = ActionOutcome::Succeeded;
                let names: Vec<String> = self.others.keys().cloned().collect();
                for name in names {
                    if name == LEGACY_MCP_BACKUP || is_stale_mcp_backup_name(&name) {
                        match self.others[&name] {
                            Node::File(_) => {
                                self.others.remove(&name);
                            }
                            Node::Dir(_) => outcome = ActionOutcome::Failed("is a directory".to_string()),
                        }
                    }
                }
                outcome
            }
            FileAction::Move { from, to } => {
                if self.fail_move_from == Some(from) {
                    ActionOutcome::Failed("simulated MCP install failure".to_string())
                } else {
                    self.rename(from, to)
                }
            }
            FileAction::Rename { from, to } => self.rename(from, to),
            FileAction::RemoveFile(slot) => match self.get(slot) {
                Some(Node::File(_)) => {
                    self.slots.remove(&key(slot));
                    ActionOutcome::Succeeded
                }
                _ => ActionOutcome::Failed("not a file".to_string()),
            },
            FileAction::RemoveDir(slot) => match self.get(slot) {
                Some(Node::Dir(_)) => {
                    self.slots.remove(&key(slot));
                    ActionOutcome::Succeeded
                }
                _ => ActionOutcome::Failed("not a directory".to_string()),
            },
            FileAction::Copy { from, to } => match (self.get(from), self.get(to)) {
                (Some(Node::File(c)), None | Some(Node::File(_))) => {
                    self.set(to, Node::File(c));
                    ActionOutcome::Succeeded
                }
                _ => ActionOutcome::Failed("cannot copy".to_string()),
            },
            FileAction::StageConpty { from, to } => match (self.get(from), self.get(to)) {
                (Some(Node::Dir(c)), None) => {
                    self.set(to, Node::Dir(c));
                    ActionOutcome::Succeeded
                }
                _ => ActionOutcome::Failed("cannot stage".to_string()),
            },
        }
    }

    fn commit(&mut self) -> Result<(), UpdateError> {
        let mut m = CommitMachine::new();
        while let Some(action) = m.action() {
            let outcome = self.perform(action);
            m = m.advance(outcome);
        }
        m.into_result()
    }

    fn replace(&mut self) -> Result<(), UpdateError> {
        let mut m = ReplaceMachine::new();
        while let Some(action) = m.action() {
            let outcome = self.perform(action);
            m = m.advance(outcome);
        }
        m.into_result()
    }
}

fn staged_payload() -> FakeFs {
    let mut fs = FakeFs::new();
    fs.set(Slot::SourceExe, Node::File("new-exe"));
    fs.set(Slot::SourceMcp, Node::File("new-mcp"));
    fs.set(Slot::SourceConpty, Node::Dir("new-conpty"));
    fs
}

#[test]
fn maps_supported_windows_architectures() {
    assert_eq!(portable_target_for_arch("x86_64").unwrap(), "windows-x86_64-portable");
    assert_eq!(portable_target_for_arch("aarch64").unwrap(), "windows-aarch64-portable");
    assert!(portable_target_for_arch("x86").is_err());
}

#[test]
fn extracts_program_files_without_touching_data() {
    let bytes = archive(&[
        ("NyaTerm-portable/NyaTerm.exe", b"new-exe"),
        ("NyaTerm-portable/nyaterm-mcp.exe", b"new-mcp"),
        ("NyaTerm-portable/portable.flag", b""),
        ("NyaTerm-portable/conpty/x64/conpty.dll", b"x64-dll"),
        ("NyaTerm-portable/conpty/x64/x64/OpenConsole.exe", b"x64-host"),
        ("NyaTerm-portable/conpty/x64/arm64/OpenConsole.exe", b"arm64-host"),
        ("NyaTerm-portable/conpty/arm64/conpty.dll", b"arm64-dll"),
        ("NyaTerm-portable/conpty/arm64/arm64/OpenConsole.exe", b"arm64-host"),
        ("NyaTerm-portable/conpty/LICENSE.txt", b"license"),
        ("NyaTerm-portable/data/.keep", b"package-data"),
    ]);

    let files = extract(&bytes).unwrap();

    assert_eq!(files["NyaTerm.exe"], b"new-exe");
    assert_eq!(files["nyaterm-mcp.exe"], b"new-mcp");
    assert!(files.contains_key("portable.flag"));
    assert_eq!(files["conpty/x64/conpty.dll"], b"x64-dll");
    assert!(!files.keys().any(|k| k.starts_with("data")));
}

#[test]
fn rejects_unsafe_or_incomplete_archives() {
    let unsafe_archive = archive(&[
        ("../NyaTerm.exe", b"bad"),
        ("NyaTerm-portable/nyaterm-mcp.exe", b"new-mcp"),
        ("NyaTerm-portable/portable.flag", b""),
    ]);
    assert!(extract(&unsafe_archive).is_err());

    let nested_escape = archive(&[
        ("NyaTerm-portable/NyaTerm.exe", b"new-exe"),
        ("NyaTerm-portable/nyaterm-mcp.exe", b"new-mcp"),
        ("NyaTerm-portable/portable.flag", b""),
        ("NyaTerm-portable/data/../../escape", b"bad"),
    ]);
    assert!(extract(&nested_escape).is_err());

    let missing_marker = archive(&[
        ("NyaTerm-portable/NyaTerm.exe", b"new-exe"),
        ("NyaTerm-portable/nyaterm-mcp.exe", b"new-mcp"),
    ]);
    assert!(extract(&missing_marker).is_err());

    let missing_mcp = archive(&[
        ("NyaTerm-portable/NyaTerm.exe", b"new-exe"),
        ("NyaTerm-portable/portable.flag", b""),
    ]);
    assert!(extract(&missing_mcp).is_err());
    let unexpected_conpty = archive(&[("NyaTerm-portable/conpty/other.dll", b"bad")]);
    assert!(extract(&unexpected_conpty).is_err());
}

#[test]
fn portable_replace_installs_mcp_when_missing() {
    let mut fs = staged_payload();
    fs.set(Slot::TargetExe, Node::File("old-exe"));

    fs.replace().unwrap();

    assert_eq!(fs.get(Slot::TargetExe), Some(Node::File("new-exe")));
    assert_eq!(fs.get(Slot::TargetMcp), Some(Node::File("new-mcp")));
    assert_eq!(fs.get(Slot::TargetConpty), Some(Node::Dir("new-conpty")));
    assert_eq!(fs.get(Slot::BackupExe), None);
    assert_eq!(fs.get(Slot::BackupMcp), None);
}

#[test]
fn portable_replace_ignores_unremovable_stale_mcp_backup() {
    let mut fs = staged_payload();
    fs.set(Slot::TargetExe, Node::File("old-exe"));
    fs.set(Slot::TargetMcp, Node::File("old-mcp"));
    // A directory cannot be removed as a file, like a backup Windows keeps open.
    let stale_backup = format!("{MCP_BACKUP_PREFIX}stale.exe");
    fs.others.insert(stale_backup.clone(), Node::Dir("stale"));

    fs.replace().unwrap();

    assert_eq!(fs.get(Slot::TargetExe), Some(Node::File("new-exe")));
    assert_eq!(fs.get(Slot::TargetMcp), Some(Node::File("new-mcp")));
    assert_eq!(fs.others.get(&stale_backup), Some(&Node::Dir("stale")));
}

#[test]
fn portable_replace_restores_conpty_when_mcp_target_is_invalid() {
    let mut fs = staged_payload();
    fs.set(Slot::TargetExe, Node::File("old-exe"));
    fs.set(Slot::TargetMcp, Node::Dir("mcp-dir"));
    fs.set(Slot::TargetConpty, Node::Dir("old-conpty"));

    assert!(fs.replace().is_err());
    assert_eq!(fs.get(Slot::TargetExe), Some(Node::File("old-exe")));
    assert_eq!(fs.get(Slot::TargetConpty), Some(Node::Dir("old-conpty")));
}

#[test]
fn portable_commit_rolls_back_both_files_when_mcp_install_fails() {
    let mut fs = FakeFs::new();
    fs.set(Slot::TargetExe, Node::File("old-exe"));
    fs.set(Slot::TargetMcp, Node::File("old-mcp"));
    fs.set(Slot::NewExe, Node::File("new-exe"));
    fs.set(Slot::NewMcp, Node::File("new-mcp"));
    fs.fail_move_from = Some(Slot::NewMcp);

    let result = fs.commit();

    assert!(result.is_err());
    assert_eq!(fs.get(Slot::TargetExe), Some(Node::File("old-exe")));
    assert_eq!(fs.get(Slot::TargetMcp), Some(Node::File("old-mcp")));
}

#[test]
fn portable_commit_restores_exe_when_first_mcp_install_fails() {
    let mut fs = FakeFs::new();
    fs.set(Slot::TargetExe, Node::File("old-exe"));
    fs.set(Slot::NewExe, Node::File("new-exe"));
    fs.set(Slot::NewMcp, Node::File("new-mcp"));
    fs.fail_move_from = Some(Slot::NewMcp);

    let result = fs.commit();

    assert!(result.is_err());
    assert_eq!(fs.get(Slot::TargetExe), Some(Node::File("old-exe")));
    assert_eq!(fs.get(Slot::TargetMcp), None);
}

#[test]
fn extraction_hands_out_each_payload_file_once() {
    let bytes = archive(&[
        ("NyaTerm-portable/", b""),
        ("NyaTerm-portable/NyaTerm.exe", b"new-exe"),
        ("NyaTerm-portable/nyaterm-mcp.exe", b"new-mcp"),
        ("NyaTerm-portable/portable.flag", b""),
        ("NyaTerm-portable/conpty/x64/conpty.dll", b"x64-dll"),
        ("NyaTerm-portable/conpty/x64/x64/OpenConsole.exe", b"x64-host"),
        ("NyaTerm-portable/conpty/x64/arm64/OpenConsole.exe", b"arm64-host"),
        ("NyaTerm-portable/conpty/arm64/conpty.dll", b"arm64-dll"),
        ("NyaTerm-portable/conpty/arm64/arm64/OpenConsole.exe", b"arm64-host"),
        ("NyaTerm-portable/conpty/LICENSE.txt", b"license"),
    ]);
    let mut reader = PayloadReader::open(&bytes).unwrap();
    let mut seen = Vec::new();
    while let Some(file) = reader.next_file().unwrap() {
        seen.push(file.file);
    }
    assert!(reader.finish().is_ok());
    assert_eq!(seen.len(), 9);
    assert_eq!(seen[0], PayloadFile::Exe);
    assert_eq!(seen[8], PayloadFile::ConptyLicense);
}
