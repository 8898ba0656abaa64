use vstd::prelude::*;

use crate::actions::Slot;
use crate::error::UpdateError;
use crate::payload::{payload_files, payload_path, strs_view, PayloadFile};

verus! {

/// The update target name that the release server uses for an architecture.
pub open spec fn portable_target_spec(arch: Seq<char>) -> Option<Seq<char>> {
    if arch == "x86_64"@ {
        Some("windows-x86_64-portable"@)
    } else if arch == "aarch64"@ {
        Some("windows-aarch64-portable"@)
    } else {
        None
    }
}

/// Maps a Rust architecture name to the portable update target; other
/// architectures are refused.
pub fn portable_target_for_arch(arch: &str) -> (res: Result<&'static str, UpdateError>)
    ensures
        match portable_target_spec(arch@) {
            Some(target) => res matches Ok(t) && t@ == target,
            None => res matches Err(UpdateError::UnsupportedArchitecture(a)) && a@ == arch@,
        },
{
    proof {
        reveal_strlit("x86_64");
        reveal_strlit("aarch64");
        reveal_strlit("windows-x86_64-portable");
        reveal_strlit("windows-aarch64-portable");
    }
    if str_equal(arch, "x86_64") {
        Ok("windows-x86_64-portable")
    } else if str_equal(arch, "aarch64") {
        Ok("windows-aarch64-portable")
    } else {
        Err(UpdateError::UnsupportedArchitecture(String::from_str(arch)))
    }
}

/// Compares two strings by their characters.
pub fn str_equal(a: &str, b: &str) -> (res: bool)
    ensures
        res == (a@ == b@),
{
    let x = String::from_str(a);
    let y = String::from_str(b);
    x == y
}

/// A lowercase hexadecimal digit.
pub open spec fn is_lower_hex(c: char) -> bool {
    ('0' as int <= c as int <= '9' as int) || ('a' as int <= c as int <= 'f' as int)
}

/// The hyphenated text of a random (version 4, RFC 4122 variant) UUID:
/// `xxxxxxxx-xxxx-4xxx-yxxx-xxxxxxxxxxxx` in lowercase hexadecimal, where `y`
/// is one of `8`, `9`, `a`, `b`.
pub open spec fn is_v4_uuid_text(s: Seq<char>) -> bool {
    &&& s.len() == 36
    &&& forall|i: int| 0 <= i < 36 ==> if i == 8 || i == 13 || i == 18 || i == 23 {
        #[trigger] s[i] == '-'
    } else {
        is_lower_hex(s[i])
    }
    &&& s[14] == '4'
    &&& (s[19] == '8' || s[19] == '9' || s[19] == 'a' || s[19] == 'b')
}

/// A fresh random UUID in its hyphenated text form (`uuid::Uuid::new_v4`, then
/// `to_string`): `new_v4` sets the version nibble to 4 and the variant bits to
/// RFC 4122, and `Display` writes the hyphenated lowercase form. Which UUID
/// comes back rests on chance and is not stated.
#[verifier::external_body]
fn new_uuid_text() -> (res: String)
    ensures
        res@.len() == 36,
        is_v4_uuid_text(res@),
{
    uuid::Uuid::new_v4().to_string()
}

/// Whether `s` starts with `prefix`.
pub open spec fn has_prefix(s: Seq<char>, prefix: Seq<char>) -> bool {
    prefix.len() <= s.len() && s.take(prefix.len() as int) == prefix
}

/// Whether `s` ends with `suffix`.
pub open spec fn has_suffix(s: Seq<char>, suffix: Seq<char>) -> bool {
    suffix.len() <= s.len() && s.skip(s.len() - suffix.len()) == suffix
}

/// Whether `s` starts with `prefix`.
pub fn str_starts_with(s: &str, prefix: &str) -> (res: bool)
    ensures
        res == has_prefix(s@, prefix@),
{
    let n = s.unicode_len();
    let m = prefix.unicode_len();
    if m > n {
        return false;
    }
    let mut i: usize = 0;
    while i < m
        invariant
            n == s@.len(),
            m == prefix@.len(),
            m <= n,
            0 <= i <= m,
            forall|j: int| 0 <= j < i ==> s@[j] == prefix@[j],
        decreases m - i,
    {
        if s.get_char(i) != prefix.get_char(i) {
            assert(s@.take(m as int)[i as int] != prefix@[i as int]);
            return false;
        }
        i = i + 1;
    }
    assert(s@.take(m as int) =~= prefix@);
    true
}

/// Whether `s` ends with `suffix`.
pub fn str_ends_with(s: &str, suffix: &str) -> (res: bool)
    ensures
        res == has_suffix(s@, suffix@),
{
    let n = s.unicode_len();
    let m = suffix.unicode_len();
    if m > n {
        return false;
    }
    let mut i: usize = 0;
    while i < m
        invariant
            n == s@.len(),
            m == suffix@.len(),
            m <= n,
            0 <= i <= m,
            forall|j: int| 0 <= j < i ==> s@[n - m + j] == suffix@[j],
        decreases m - i,
    {
        if s.get_char(n - m + i) != suffix.get_char(i) {
            assert(s@.skip(n - m)[i as int] != suffix@[i as int]);
            return false;
        }
        i = i + 1;
    }
    assert(s@.skip(n - m) =~= suffix@);
    true
}

/// The prefix of the per-update backup name of `nyaterm-mcp.exe`.
pub const MCP_BACKUP_PREFIX: &'static str = ".nyaterm-mcp-update-backup-";

/// The single backup name older versions used for `nyaterm-mcp.exe`.
pub const LEGACY_MCP_BACKUP: &'static str = ".nyaterm-mcp-update-backup.exe";

/// The prefix of the temporary work directories of staged updates.
pub const WORK_DIR_PREFIX: &'static str = "nyaterm-portable-update-";

/// The command-line flag that starts the update helper.
pub const HELPER_FLAG: &'static str = "--nyaterm-portable-update-helper";

/// The environment variable that tells a restarted NyaTerm which work directory to delete.
pub const CLEANUP_ENV: &'static str = "NYATERM_PORTABLE_UPDATE_CLEANUP";

/// How old, in seconds, an abandoned work directory must be before it is deleted (one day).
pub const STALE_WORK_DIR_AGE_SECS: u64 = 86400;

/// Whether a file in the installation directory is a left-over MCP backup
/// that may be deleted before an update.
pub open spec fn is_stale_mcp_backup_spec(name: Seq<char>) -> bool {
    has_prefix(name, MCP_BACKUP_PREFIX@) && has_suffix(name, ".exe"@)
}

/// Whether a file in the installation directory is a left-over MCP backup:
/// its name starts with `MCP_BACKUP_PREFIX` and ends with `.exe`.
pub fn is_stale_mcp_backup_name(name: &str) -> (res: bool)
    ensures
        res == is_stale_mcp_backup_spec(name@),
        res == (has_prefix(name@, MCP_BACKUP_PREFIX@) && has_suffix(name@, ".exe"@)),
{
    str_starts_with(name, MCP_BACKUP_PREFIX) && str_ends_with(name, ".exe")
}

/// The backup name of `nyaterm-mcp.exe` for an update identified by `id`.
pub open spec fn mcp_backup_name_spec(id: Seq<char>) -> Seq<char> {
    MCP_BACKUP_PREFIX@ + id + ".exe"@
}

/// The backup name of the `conpty` directory for an update identified by `id`.
pub open spec fn conpty_backup_name_spec(id: Seq<char>) -> Seq<char> {
    ".nyaterm-conpty-update-backup-"@ + id
}

/// Every MCP backup name an update uses is one that a later update's
/// clean-up recognises as stale and deletes.
pub proof fn lemma_mcp_backups_are_cleaned_up(id: Seq<char>)
    ensures
        is_stale_mcp_backup_spec(mcp_backup_name_spec(id)),
{
    let name = mcp_backup_name_spec(id);
    assert(name.take(MCP_BACKUP_PREFIX@.len() as int) =~= MCP_BACKUP_PREFIX@);
    assert(name.skip(name.len() - ".exe"@.len()) =~= ".exe"@);
}

/// A name counts as a stale MCP backup exactly when it starts with
/// `.nyaterm-mcp-update-backup-` and ends with `.exe`; so none of the installed
/// program files counts as one.
pub proof fn lemma_only_mcp_backups_are_stale(name: Seq<char>)
    ensures
        MCP_BACKUP_PREFIX@ == ".nyaterm-mcp-update-backup-"@,
        is_stale_mcp_backup_spec(name) ==> has_prefix(name, ".nyaterm-mcp-update-backup-"@) && has_suffix(name, ".exe"@),
        has_prefix(name, ".nyaterm-mcp-update-backup-"@) && has_suffix(name, ".exe"@) ==> is_stale_mcp_backup_spec(name),
        !is_stale_mcp_backup_spec("NyaTerm.exe"@),
        !is_stale_mcp_backup_spec("nyaterm-mcp.exe"@),
        !is_stale_mcp_backup_spec("portable.flag"@),
{
    reveal_strlit(".nyaterm-mcp-update-backup-");
    reveal_strlit("NyaTerm.exe");
    reveal_strlit("nyaterm-mcp.exe");
    reveal_strlit("portable.flag");
    assert(!has_prefix("NyaTerm.exe"@, ".nyaterm-mcp-update-backup-"@));
    assert(!has_prefix("nyaterm-mcp.exe"@, ".nyaterm-mcp-update-backup-"@));
    assert(!has_prefix("portable.flag"@, ".nyaterm-mcp-update-backup-"@));
}

/// The names an update gives its backups in the installation directory.
#[derive(Debug)]
pub struct ReplaceNames {
    pub backup_conpty: String,
    pub backup_mcp: String,
}

impl ReplaceNames {
    /// Backup names for a new update, made unique with a random UUID each.
    pub fn new() -> (res: ReplaceNames)
        ensures
            exists|a: Seq<char>, b: Seq<char>| a.len() == 36 && b.len() == 36
                && res.backup_conpty@ == conpty_backup_name_spec(a) && res.backup_mcp@ == mcp_backup_name_spec(b),
            exists|a: Seq<char>, b: Seq<char>| is_v4_uuid_text(a) && is_v4_uuid_text(b)
                && res.backup_conpty@ == conpty_backup_name_spec(a) && res.backup_mcp@ == mcp_backup_name_spec(b),
            is_stale_mcp_backup_spec(res.backup_mcp@),
    {
        let a = new_uuid_text();
        let backup_conpty = String::from_str(".nyaterm-conpty-update-backup-").concat(a.as_str());
        let b = new_uuid_text();
        let backup_mcp = String::from_str(MCP_BACKUP_PREFIX).concat(b.as_str()).concat(".exe");
        proof {
            lemma_mcp_backups_are_cleaned_up(b@);
        }
        ReplaceNames { backup_conpty, backup_mcp }
    }

    /// The file name a slot has in the installation directory; `None` for the
    /// installed executable and the staged sources, whose paths are given.
    pub fn slot_file_name(&self, slot: Slot) -> (res: Option<String>)
        ensures
            match slot {
                Slot::TargetMcp => res matches Some(n) && n@ == "nyaterm-mcp.exe"@,
                Slot::NewExe => res matches Some(n) && n@ == ".nyaterm-update-new.exe"@,
                Slot::BackupExe => res matches Some(n) && n@ == ".nyaterm-update-backup.exe"@,
                Slot::NewMcp => res matches Some(n) && n@ == ".nyaterm-mcp-update-new.exe"@,
                Slot::TargetConpty => res matches Some(n) && n@ == "conpty"@,
                Slot::NewConpty => res matches Some(n) && n@ == ".nyaterm-conpty-update-new"@,
                Slot::BackupConpty => res matches Some(n) && n@ == self.backup_conpty@,
                Slot::BackupMcp => res matches Some(n) && n@ == self.backup_mcp@,
                _ => res is None,
            },
    {
        match slot {
            Slot::TargetMcp => Some(String::from_str("nyaterm-mcp.exe")),
            Slot::NewExe => Some(String::from_str(".nyaterm-update-new.exe")),
            Slot::BackupExe => Some(String::from_str(".nyaterm-update-backup.exe")),
            Slot::NewMcp => Some(String::from_str(".nyaterm-mcp-update-new.exe")),
            Slot::TargetConpty => Some(String::from_str("conpty")),
            Slot::NewConpty => Some(String::from_str(".nyaterm-conpty-update-new")),
            Slot::BackupConpty => Some(self.backup_conpty.clone()),
            Slot::BackupMcp => Some(self.backup_mcp.clone()),
            _ => None,
        }
    }
}

/// Whether a path is one of this updater's work directories: it sits directly
/// in the temporary directory and its name starts with `WORK_DIR_PREFIX`.
pub open spec fn is_portable_work_dir_spec(parent_is_temp_dir: bool, file_name: Option<Seq<char>>) -> bool {
    parent_is_temp_dir && (file_name matches Some(n) && has_prefix(n, WORK_DIR_PREFIX@))
}

/// Whether a path is one of this updater's work directories, given whether its
/// parent is the temporary directory and its file name (if it has a UTF-8 one).
pub fn is_portable_work_dir(parent_is_temp_dir: bool, file_name: Option<&str>) -> (res: bool)
    ensures
        res == (parent_is_temp_dir && (file_name matches Some(n) && has_prefix(n@, WORK_DIR_PREFIX@))),
        res == is_portable_work_dir_spec(parent_is_temp_dir, match file_name {
            Some(n) => Some(n@),
            None => None,
        }),
{
    match file_name {
        Some(n) => parent_is_temp_dir && str_starts_with(n, WORK_DIR_PREFIX),
        None => false,
    }
}

/// Only entries directly in the temporary directory whose names start with
/// `nyaterm-portable-update-` are work directories, and every such entry is one.
pub proof fn lemma_work_dirs_are_prefixed(parent_is_temp_dir: bool, name: Seq<char>)
    ensures
        WORK_DIR_PREFIX@ == "nyaterm-portable-update-"@,
        is_portable_work_dir_spec(parent_is_temp_dir, Some(name))
            <==> parent_is_temp_dir && has_prefix(name, "nyaterm-portable-update-"@),
        !is_portable_work_dir_spec(parent_is_temp_dir, None),
{
}

/// A work directory's name determines the UUID in it: two names are the same
/// only when the UUIDs `new_v4` gave the two calls are, and no name holds the
/// nil UUID.
pub proof fn lemma_work_dir_name_determines_id(a: Seq<char>, b: Seq<char>)
    ensures
        WORK_DIR_PREFIX@ + a == WORK_DIR_PREFIX@ + b ==> a == b,
        !is_v4_uuid_text("00000000-0000-0000-0000-000000000000"@),
{
    if WORK_DIR_PREFIX@ + a == WORK_DIR_PREFIX@ + b {
        let n = WORK_DIR_PREFIX@.len() as int;
        assert(a =~= (WORK_DIR_PREFIX@ + a).skip(n));
        assert(b =~= (WORK_DIR_PREFIX@ + b).skip(n));
    }
    reveal_strlit("00000000-0000-0000-0000-000000000000");
}

/// The name of a new work directory in the temporary directory.
pub fn new_work_dir_name() -> (res: String)
    ensures
        exists|id: Seq<char>| id.len() == 36 && res@ == WORK_DIR_PREFIX@ + id,
        exists|id: Seq<char>| is_v4_uuid_text(id) && res@ == WORK_DIR_PREFIX@ + id,
        is_portable_work_dir_spec(true, Some(res@)),
{
    let id = new_uuid_text();
    let res = String::from_str(WORK_DIR_PREFIX).concat(id.as_str());
    assert(res@.take(WORK_DIR_PREFIX@.len() as int) =~= WORK_DIR_PREFIX@);
    res
}

/// The name of the file that probes whether the installation directory is writable.
pub fn new_write_probe_name() -> (res: String)
    ensures
        exists|id: Seq<char>| id.len() == 36 && res@ == ".nyaterm-update-write-test-"@ + id,
        exists|id: Seq<char>| is_v4_uuid_text(id) && res@ == ".nyaterm-update-write-test-"@ + id,
{
    let id = new_uuid_text();
    String::from_str(".nyaterm-update-write-test-").concat(id.as_str())
}

/// Whether an entry of the temporary directory is an abandoned work directory
/// to delete: a directory, one of the updater's, at least a day old.
pub fn is_stale_work_dir(is_dir: bool, is_work_dir: bool, age_secs: Option<u64>) -> (res: bool)
    ensures
        res == (is_dir && is_work_dir && (age_secs matches Some(a) && a >= STALE_WORK_DIR_AGE_SECS)),
{
    match age_secs {
        Some(a) => is_dir && is_work_dir && a >= STALE_WORK_DIR_AGE_SECS,
        None => false,
    }
}

/// The name of the helper executable inside a work directory.
pub const HELPER_EXE: &'static str = "NyaTerm-update-helper.exe";

/// The directory inside a work directory that holds the extracted payload.
pub const PAYLOAD_DIR: &'static str = "payload";

/// The files a staged update must still hold when it is applied, as paths
/// below its work directory: the helper, then each payload file below `payload`.
pub open spec fn staged_required_spec() -> Seq<Seq<Seq<char>>> {
    seq![seq![HELPER_EXE@]] + payload_files().map_values(|f: PayloadFile| seq![PAYLOAD_DIR@] + payload_path(f))
}

/// The files a staged update must still hold when it is applied (see `staged_required_spec`).
pub fn staged_required_files() -> (res: Vec<Vec<&'static str>>)
    ensures
        res@.map_values(|p: Vec<&'static str>| strs_view(p@)) == staged_required_spec(),
{
    let mut res: Vec<Vec<&'static str>> = Vec::new();
    let helper = vec![HELPER_EXE];
    assert(strs_view(helper@) =~= seq![HELPER_EXE@]);
    res.push(helper);
    let files = PayloadFile::all();
    let mut i: usize = 0;
    assert(res@.map_values(|p: Vec<&'static str>| strs_view(p@)) =~= seq![seq![HELPER_EXE@]]);
    while i < files.len()
        invariant
            0 <= i <= files.len(),
            files@ == payload_files(),
            res@.map_values(|p: Vec<&'static str>| strs_view(p@)) == seq![seq![HELPER_EXE@]]
                + payload_files().take(i as int).map_values(|f: PayloadFile| seq![PAYLOAD_DIR@] + payload_path(f)),
        decreases files.len() - i,
    {
        let mut path = vec![PAYLOAD_DIR];
        let mut rel = files[i].relative_path();
        path.append(&mut rel);
        assert(strs_view(path@) =~= seq![PAYLOAD_DIR@] + payload_path(files@[i as int]));
        let ghost old_res = res@;
        res.push(path);
        i = i + 1;
        assert(payload_files().take(i as int) =~= payload_files().take(i - 1).push(payload_files()[i - 1]));
        assert(res@.map_values(|p: Vec<&'static str>| strs_view(p@)) =~= old_res.map_values(|p: Vec<&'static str>| strs_view(p@)).push(strs_view(path@)));
        assert(res@.map_values(|p: Vec<&'static str>| strs_view(p@)) =~= seq![seq![HELPER_EXE@]]
            + payload_files().take(i as int).map_values(|f: PayloadFile| seq![PAYLOAD_DIR@] + payload_path(f)));
    }
    assert(payload_files().take(9) =~= payload_files());
    res
}

/// Where the ConPTY files go inside a `conpty` directory: each ConPTY payload
/// file's path without its leading `conpty` component, in payload order.
pub open spec fn conpty_layout_spec() -> Seq<Seq<Seq<char>>> {
    payload_files().skip(3).map_values(|f: PayloadFile| payload_path(f).skip(1))
}

/// The ConPTY files' paths inside a `conpty` directory (see `conpty_layout_spec`).
pub fn conpty_layout() -> (res: Vec<Vec<&'static str>>)
    ensures
        res@.map_values(|p: Vec<&'static str>| strs_view(p@)) == conpty_layout_spec(),
{
    let res = vec![
        vec!["x64", "conpty.dll"],
        vec!["x64", "x64", "OpenConsole.exe"],
        vec!["x64", "arm64", "OpenConsole.exe"],
        vec!["arm64", "conpty.dll"],
        vec!["arm64", "arm64", "OpenConsole.exe"],
        vec!["LICENSE.txt"],
    ];
    let ghost spec = conpty_layout_spec();
    let ghost got = res@.map_values(|p: Vec<&'static str>| strs_view(p@));
    assert(spec[0] =~= seq!["x64"@, "conpty.dll"@]);
    assert(spec[1] =~= seq!["x64"@, "x64"@, "OpenConsole.exe"@]);
    assert(spec[2] =~= seq!["x64"@, "arm64"@, "OpenConsole.exe"@]);
    assert(spec[3] =~= seq!["arm64"@, "conpty.dll"@]);
    assert(spec[4] =~= seq!["arm64"@, "arm64"@, "OpenConsole.exe"@]);
    assert(spec[5] =~= seq!["LICENSE.txt"@]);
    assert(got[0] =~= spec[0]);
    assert(got[1] =~= spec[1]);
    assert(got[2] =~= spec[2]);
    assert(got[3] =~= spec[3]);
    assert(got[4] =~= spec[4]);
    assert(got[5] =~= spec[5]);
    assert(got =~= spec);
    res
}

/// The ConPTY layout lists the files of the `conpty` directory: it has six
/// entries, none empty, each is a payload file's path with its leading
/// `conpty` taken off, and every payload file below `conpty` is listed.
pub proof fn lemma_conpty_layout_lists_the_conpty_files()
    ensures
        conpty_layout_spec().len() == 6,
        forall|i: int| 0 <= i < 6 ==> (#[trigger] conpty_layout_spec()[i]).len() >= 1,
        forall|i: int| 0 <= i < 6 ==> exists|f: PayloadFile|
            #[trigger] payload_path(f) == seq!["conpty"@] + #[trigger] conpty_layout_spec()[i],
        forall|f: PayloadFile| payload_path(f).len() >= 2 && #[trigger] payload_path(f)[0] == "conpty"@
            ==> exists|i: int| 0 <= i < 6 && payload_path(f) == seq!["conpty"@] + #[trigger] conpty_layout_spec()[i],
{
    let l = conpty_layout_spec();
    let c = seq!["conpty"@];
    assert(l[0] =~= seq!["x64"@, "conpty.dll"@]);
    assert(l[1] =~= seq!["x64"@, "x64"@, "OpenConsole.exe"@]);
    assert(l[2] =~= seq!["x64"@, "arm64"@, "OpenConsole.exe"@]);
    assert(l[3] =~= seq!["arm64"@, "conpty.dll"@]);
    assert(l[4] =~= seq!["arm64"@, "arm64"@, "OpenConsole.exe"@]);
    assert(l[5] =~= seq!["LICENSE.txt"@]);
    assert(payload_path(PayloadFile::ConptyX64Dll) =~= c + l[0]);
    assert(payload_path(PayloadFile::ConptyX64Host) =~= c + l[1]);
    assert(payload_path(PayloadFile::ConptyX64Arm64Host) =~= c + l[2]);
    assert(payload_path(PayloadFile::ConptyArm64Dll) =~= c + l[3]);
    assert(payload_path(PayloadFile::ConptyArm64Host) =~= c + l[4]);
    assert(payload_path(PayloadFile::ConptyLicense) =~= c + l[5]);
}

/// Where the helper records why an update failed, below the installation directory.
pub fn helper_error_log_path() -> (res: Vec<&'static str>)
    ensures
        strs_view(res@) == seq!["data"@, "logs"@, "portable-update-error.log"@],
{
    let res = vec!["data", "logs", "portable-update-error.log"];
    assert(strs_view(res@) =~= seq!["data"@, "logs"@, "portable-update-error.log"@]);
    res
}

/// Updates run only in the Windows portable edition.
pub fn ensure_portable_runtime(is_windows: bool, is_portable: bool) -> (res: Result<(), UpdateError>)
    ensures
        res is Ok <==> is_windows && is_portable,
        res matches Err(e) ==> e is NotPortableRuntime,
{
    if !is_windows || !is_portable {
        Err(UpdateError::NotPortableRuntime)
    } else {
        Ok(())
    }
}

/// A downloaded archive may not exceed `MAX_PAYLOAD_BYTES`.
pub fn check_archive_size(len: usize) -> (res: Result<(), UpdateError>)
    ensures
        res is Ok <==> len <= crate::payload::MAX_PAYLOAD_BYTES,
        res matches Err(e) ==> e is ArchiveTooLarge,
{
    if len as u64 > crate::payload::MAX_PAYLOAD_BYTES {
        Err(UpdateError::ArchiveTooLarge)
    } else {
        Ok(())
    }
}

} // verus!
