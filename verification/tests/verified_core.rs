use std::io::{Cursor, Write};

use nyaterm_portable::actions::Slot;
use nyaterm_portable::archive::PayloadReader;
use nyaterm_portable::conpty::{
    backend_name, bundled_conpty_dll, conpty_package_version, local_conpty_info, ConptyBackend,
};
use nyaterm_portable::error::UpdateError;
use nyaterm_portable::helper::{
    format_u32, helper_arguments, parse_helper_invocation, parse_u32, wait_for_process_exit, HelperInvocation,
    ParentExit,
};
use nyaterm_portable::layout::{
    check_archive_size, conpty_layout, ensure_portable_runtime, helper_error_log_path, is_portable_work_dir,
    is_stale_mcp_backup_name, is_stale_work_dir, new_work_dir_name, new_write_probe_name, staged_required_files,
    ReplaceNames, HELPER_FLAG, LEGACY_MCP_BACKUP,
};
use nyaterm_portable::payload::{PayloadFile, MAX_PAYLOAD_BYTES};
use nyaterm_portable::state::{
    update_check_outcome, PortableUpdateInfo, PortableUpdateProgress, PortableUpdateState, StagedPortableUpdate,
    UpdaterCheckFailure,
};

use zip::write::SimpleFileOptions;

fn archive(entries: &[(&str, &[u8])]) -> Vec<u8> {
    let mut writer = zip::ZipWriter::new(Cursor::new(Vec::new()));
    for (name, bytes) in entries {
        writer.start_file(*name, SimpleFileOptions::default()).unwrap();
        writer.write_all(bytes).unwrap();
    }
    writer.finish().unwrap().into_inner()
}

fn first_error(bytes: &[u8]) -> UpdateError {
    let mut reader = match PayloadReader::open(bytes) {
        Ok(r) => r,
        Err(e) => return e,
    };
    loop {
        match reader.next_file() {
            Ok(Some(_)) => continue,
            Ok(None) => break,
            Err(e) => return e,
        }
    }
    reader.finish().unwrap_err()
}

#[test]
fn refuses_bytes_that_are_no_zip_archive() {
    assert!(matches!(first_error(b"not a zip archive"), UpdateError::InvalidArchive(_)));
}

#[test]
fn refuses_archives_with_too_many_entries() {
    let names: Vec<String> = (0..129).map(|i| format!("NyaTerm-portable/data/{i}")).collect();
    let entries: Vec<(&str, &[u8])> = names.iter().map(|n| (n.as_str(), &b"x"[..])).collect();
    assert!(matches!(first_error(&archive(&entries)), UpdateError::TooManyEntries));
}

#[test]
fn accepts_exactly_the_entry_limit() {
    let names: Vec<String> = (0..128).map(|i| format!("NyaTerm-portable/data/{i}")).collect();
    let entries: Vec<(&str, &[u8])> = names.iter().map(|n| (n.as_str(), &b"x"[..])).collect();
    assert!(PayloadReader::open(&archive(&entries)).is_ok());
}

#[test]
fn refuses_unexpected_root_and_files() {
    assert!(matches!(first_error(&archive(&[("Other/NyaTerm.exe", b"x")])), UpdateError::UnexpectedRoot));
    match first_error(&archive(&[("NyaTerm-portable/conpty/other.dll", b"x")])) {
        UpdateError::UnexpectedFile(path) => assert_eq!(path, vec!["conpty", "other.dll"]),
        other => panic!("unexpected {other:?}"),
    }
    assert!(matches!(
        first_error(&archive(&[("NyaTerm-portable/data/../../escape", b"x")])),
        UpdateError::UnexpectedRoot
    ));
}

#[test]
fn refuses_a_second_copy_of_a_payload_file() {
    let bytes = archive(&[
        ("NyaTerm-portable/NyaTerm.exe", b"one"),
        ("NyaTerm-portable/./NyaTerm.exe", b"two"),
    ]);
    assert!(matches!(first_error(&bytes), UpdateError::DuplicateExe));
    let bytes = archive(&[
        ("NyaTerm-portable/conpty/LICENSE.txt", b"one"),
        ("NyaTerm-portable/conpty/./LICENSE.txt", b"two"),
    ]);
    match first_error(&bytes) {
        UpdateError::DuplicateConpty(path) => assert_eq!(path, vec!["conpty", "LICENSE.txt"]),
        other => panic!("unexpected {other:?}"),
    }
}

#[test]
fn refuses_symbolic_links() {
    let mut writer = zip::ZipWriter::new(Cursor::new(Vec::new()));
    writer
        .add_symlink("NyaTerm-portable/NyaTerm.exe", "/etc/passwd", SimpleFileOptions::default())
        .unwrap();
    let bytes = writer.finish().unwrap().into_inner();
    assert!(matches!(first_error(&bytes), UpdateError::SymbolicLink));
}

#[test]
fn reports_missing_required_files() {
    let bytes = archive(&[("NyaTerm-portable/NyaTerm.exe", b"x"), ("NyaTerm-portable/data/a", b"y")]);
    assert!(matches!(first_error(&bytes), UpdateError::MissingRequiredFile));
}

#[test]
fn payload_paths_and_layout() {
    assert_eq!(PayloadFile::ConptyX64Host.relative_path(), vec!["conpty", "x64", "x64", "OpenConsole.exe"]);
    assert_eq!(PayloadFile::all().len(), 9);
    let required = staged_required_files();
    assert_eq!(required.len(), 10);
    assert_eq!(required[0], vec!["NyaTerm-update-helper.exe"]);
    assert_eq!(required[1], vec!["payload", "NyaTerm.exe"]);
    assert_eq!(required[9], vec!["payload", "conpty", "LICENSE.txt"]);
    let layout = conpty_layout();
    assert_eq!(layout.len(), 6);
    assert_eq!(layout[0], vec!["x64", "conpty.dll"]);
    assert_eq!(layout[5], vec!["LICENSE.txt"]);
    assert_eq!(helper_error_log_path(), vec!["data", "logs", "portable-update-error.log"]);
}

#[test]
fn backup_names_are_cleaned_up_later() {
    let names = ReplaceNames::new();
    assert!(is_stale_mcp_backup_name(&names.backup_mcp));
    assert!(names.backup_mcp.starts_with(".nyaterm-mcp-update-backup-"));
    assert_eq!(names.backup_mcp.len(), ".nyaterm-mcp-update-backup-".len() + 36 + 4);
    assert!(names.backup_conpty.starts_with(".nyaterm-conpty-update-backup-"));
    assert_eq!(names.slot_file_name(Slot::NewExe).unwrap(), ".nyaterm-update-new.exe");
    assert_eq!(names.slot_file_name(Slot::BackupMcp).unwrap(), names.backup_mcp);
    assert!(names.slot_file_name(Slot::TargetExe).is_none());
    assert!(is_stale_mcp_backup_name(".nyaterm-mcp-update-backup-stale.exe"));
    assert!(!is_stale_mcp_backup_name(LEGACY_MCP_BACKUP));
    assert!(!is_stale_mcp_backup_name("nyaterm-mcp.exe"));
}

#[test]
fn work_directories_are_recognised() {
    let name = new_work_dir_name();
    assert!(is_portable_work_dir(true, Some(&name)));
    assert!(!is_portable_work_dir(false, Some(&name)));
    assert!(!is_portable_work_dir(true, Some("other")));
    assert!(!is_portable_work_dir(true, None));
    assert_eq!(name.len(), "nyaterm-portable-update-".len() + 36);
    assert!(new_write_probe_name().starts_with(".nyaterm-update-write-test-"));
    assert!(is_stale_work_dir(true, true, Some(86400)));
    assert!(!is_stale_work_dir(true, true, Some(86399)));
    assert!(!is_stale_work_dir(false, true, Some(90000)));
    assert!(!is_stale_work_dir(true, true, None));
}

#[test]
fn decimal_text_round_trips() {
    assert_eq!(format_u32(0), "0");
    assert_eq!(format_u32(4294967295), "4294967295");
    assert_eq!(format_u32(1200), "1200");
    for n in [0u32, 7, 10, 99, 12345, u32::MAX] {
        assert_eq!(parse_u32(&format_u32(n)), Some(n));
    }
    assert_eq!(parse_u32("+42"), Some(42));
    assert_eq!(parse_u32("007"), Some(7));
    assert_eq!(parse_u32("4294967296"), None);
    assert_eq!(parse_u32("-1"), None);
    assert_eq!(parse_u32("+"), None);
    assert_eq!(parse_u32(""), None);
    assert_eq!(parse_u32("12a"), None);
}

#[test]
fn helper_reads_the_arguments_it_is_given() {
    let args = helper_arguments(4242);
    assert_eq!(args, vec![HELPER_FLAG.to_string(), "4242".to_string()]);
    match parse_helper_invocation(8, Some(&args[0]), Some(&args[1])) {
        HelperInvocation::Run { parent_pid } => assert_eq!(parent_pid, 4242),
        other => panic!("unexpected {other:?}"),
    }
    assert!(matches!(parse_helper_invocation(1, None, None), HelperInvocation::NotRequested));
    assert!(matches!(parse_helper_invocation(8, Some("--other"), Some("1")), HelperInvocation::NotRequested));
    assert!(matches!(
        parse_helper_invocation(7, Some(HELPER_FLAG), Some("1")),
        HelperInvocation::Invalid(UpdateError::InvalidHelperArguments)
    ));
    assert!(matches!(
        parse_helper_invocation(8, Some(HELPER_FLAG), Some("pid")),
        HelperInvocation::Invalid(UpdateError::InvalidParentPid)
    ));
}

#[test]
fn parent_exit_decisions() {
    assert!(wait_for_process_exit(ParentExit::AlreadyGone).is_ok());
    assert!(wait_for_process_exit(ParentExit::Exited).is_ok());
    assert!(matches!(
        wait_for_process_exit(ParentExit::OpenFailed("denied".to_string())),
        Err(UpdateError::ParentOpenFailed(t)) if t == "denied"
    ));
    assert!(matches!(wait_for_process_exit(ParentExit::StillRunning), Err(UpdateError::ParentWaitTimedOut)));
    assert!(matches!(wait_for_process_exit(ParentExit::Unsupported), Err(UpdateError::HelperUnsupported)));
}

#[test]
fn update_state_allows_one_download_and_one_apply() {
    let mut state = PortableUpdateState::default();
    assert!(matches!(state.take_for_apply(), Err(UpdateError::NothingStaged)));
    state.begin_download().unwrap();
    assert!(matches!(state.begin_download(), Err(UpdateError::DownloadInProgress)));
    assert!(matches!(state.take_for_apply(), Err(UpdateError::StillDownloading)));
    let previous = state.stage(StagedPortableUpdate { work_dir: "one".into() });
    assert!(previous.is_none());
    let previous = state.stage(StagedPortableUpdate { work_dir: "two".into() });
    assert_eq!(previous.unwrap().work_dir, std::path::PathBuf::from("one"));
    state.end_download();
    assert_eq!(state.take_for_apply().unwrap().work_dir, std::path::PathBuf::from("two"));
    assert!(matches!(state.take_for_apply(), Err(UpdateError::NothingStaged)));
    state.begin_download().unwrap();
}

#[test]
fn progress_saturates_and_reports_unknown_total_as_zero() {
    let p = PortableUpdateProgress::after_chunk(10, 5, None);
    assert_eq!((p.downloaded(), p.total()), (15, 0));
    let p = PortableUpdateProgress::after_chunk(u64::MAX - 1, 5, Some(7));
    assert_eq!((p.downloaded(), p.total()), (u64::MAX, 7));
    let p = PortableUpdateProgress::completed(1234);
    assert_eq!((p.downloaded(), p.total()), (1234, 1234));
}

#[test]
fn runtime_and_size_checks() {
    assert!(ensure_portable_runtime(true, true).is_ok());
    assert!(matches!(ensure_portable_runtime(false, true), Err(UpdateError::NotPortableRuntime)));
    assert!(matches!(ensure_portable_runtime(true, false), Err(UpdateError::NotPortableRuntime)));
    assert!(check_archive_size(MAX_PAYLOAD_BYTES as usize).is_ok());
    assert!(matches!(check_archive_size(MAX_PAYLOAD_BYTES as usize + 1), Err(UpdateError::ArchiveTooLarge)));
}

#[test]
fn update_check_outcomes() {
    assert_eq!(update_check_outcome::<u8>(Ok(Some(3))).unwrap(), Some(3));
    assert_eq!(update_check_outcome::<u8>(Err(UpdaterCheckFailure::TargetMissing)).unwrap(), None);
    assert!(matches!(
        update_check_outcome::<u8>(Err(UpdaterCheckFailure::Other("offline".to_string()))),
        Err(UpdateError::UpdateCheckFailed(t)) if t == "offline"
    ));
    let info = PortableUpdateInfo::new("1.2.3".to_string(), None, Some("notes".to_string()));
    assert_eq!(info.version(), "1.2.3");
    assert!(info.date().is_none());
    assert_eq!(info.body().as_deref(), Some("notes"));
}

#[test]
fn conpty_support_information() {
    assert_eq!(backend_name(ConptyBackend::Bundled), "bundled");
    assert_eq!(backend_name(ConptyBackend::System), "system");
    let info = local_conpty_info(true, 2, 1, Some(ConptyBackend::System), true, "1.22".to_string());
    assert_eq!(info.last_used, Some("system"));
    assert!(info.fallback);
    assert_eq!((info.active_bundled, info.active_system), (2, 1));
    assert_eq!(bundled_conpty_dll("x86_64").unwrap(), vec!["conpty", "x64", "conpty.dll"]);
    assert_eq!(bundled_conpty_dll("aarch64").unwrap(), vec!["conpty", "arm64", "conpty.dll"]);
    assert!(bundled_conpty_dll("x86").is_none());
    assert_eq!(conpty_package_version(r#"{"version":"1.23.251008001"}"#).unwrap(), "1.23.251008001");
    assert!(conpty_package_version(r#"{"version":5}"#).is_none());
    assert!(conpty_package_version("not json").is_none());
}

fn stored_archive(name: &str, content: &[u8]) -> Vec<u8> {
    let mut writer = zip::ZipWriter::new(Cursor::new(Vec::new()));
    let options = SimpleFileOptions::default().compression_method(zip::CompressionMethod::Stored);
    writer.start_file(name, options).unwrap();
    writer.write_all(content).unwrap();
    writer.finish().unwrap().into_inner()
}

#[test]
fn reports_payload_data_that_cannot_be_read() {
    let content = b"payload-bytes-here";
    let mut bytes = stored_archive("NyaTerm-portable/NyaTerm.exe", content);
    let at = bytes.windows(content.len()).position(|w| w == content).unwrap();
    bytes[at] ^= 0xff;
    assert!(matches!(first_error(&bytes), UpdateError::Io(_)));
}

#[test]
fn reports_entries_that_cannot_be_opened() {
    let mut bytes = stored_archive("NyaTerm-portable/NyaTerm.exe", b"payload");
    // The local header comes first; without its signature the entry does not open.
    assert_eq!(&bytes[0..4], b"PK\x03\x04");
    bytes[0] = b'X';
    assert!(matches!(first_error(&bytes), UpdateError::ArchiveReadFailed(_)));
}
