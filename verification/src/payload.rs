use vstd::prelude::*;

use crate::error::UpdateError;
use crate::layout::str_equal;

verus! {

/// The largest archive, and the largest sum of program file sizes, accepted (512 MiB).
pub const MAX_PAYLOAD_BYTES: u64 = 536870912;

/// The largest number of entries an update archive may list.
pub const MAX_ARCHIVE_ENTRIES: usize = 128;

/// One component of an archive entry's path.
#[derive(Debug)]
pub enum PathPart {
    /// A drive or UNC prefix.
    Prefix,
    /// The root directory.
    RootDir,
    /// `.`
    CurDir,
    /// `..`
    ParentDir,
    /// A plain file or directory name.
    Normal(String),
}

/// The mathematical value of a `PathPart`.
pub enum PathPartView {
    Prefix,
    RootDir,
    CurDir,
    ParentDir,
    Normal(Seq<char>),
}

impl View for PathPart {
    type V = PathPartView;

    open spec fn view(&self) -> PathPartView {
        match self {
            PathPart::Prefix => PathPartView::Prefix,
            PathPart::RootDir => PathPartView::RootDir,
            PathPart::CurDir => PathPartView::CurDir,
            PathPart::ParentDir => PathPartView::ParentDir,
            PathPart::Normal(name) => PathPartView::Normal(name@),
        }
    }
}

/// What the update logic reads of one archive entry.
#[derive(Debug)]
pub struct ArchiveEntry {
    /// The entry's path once made safe by the archive reader, split into
    /// components; `None` when the name would escape the extraction directory.
    pub path: Option<Vec<PathPart>>,
    /// Whether the entry is a directory.
    pub is_dir: bool,
    /// Whether the entry is a symbolic link.
    pub is_symlink: bool,
    /// The declared uncompressed size.
    pub size: u64,
}

/// The mathematical value of an `ArchiveEntry`.
pub struct ArchiveEntryView {
    pub path: Option<Seq<PathPartView>>,
    pub is_dir: bool,
    pub is_symlink: bool,
    pub size: u64,
}

impl View for ArchiveEntry {
    type V = ArchiveEntryView;

    open spec fn view(&self) -> ArchiveEntryView {
        ArchiveEntryView {
            path: match self.path {
                Some(parts) => Some(parts@.map_values(|p: PathPart| p@)),
                None => None,
            },
            is_dir: self.is_dir,
            is_symlink: self.is_symlink,
            size: self.size,
        }
    }
}

/// The files an update payload consists of.
#[derive(Clone, Copy, Debug, PartialEq, Eq, Structural)]
pub enum PayloadFile {
    /// `NyaTerm.exe`
    Exe,
    /// `nyaterm-mcp.exe`
    Mcp,
    /// `portable.flag`
    Marker,
    /// `conpty/x64/conpty.dll`
    ConptyX64Dll,
    /// `conpty/x64/x64/OpenConsole.exe`
    ConptyX64Host,
    /// `conpty/x64/arm64/OpenConsole.exe`
    ConptyX64Arm64Host,
    /// `conpty/arm64/conpty.dll`
    ConptyArm64Dll,
    /// `conpty/arm64/arm64/OpenConsole.exe`
    ConptyArm64Host,
    /// `conpty/LICENSE.txt`
    ConptyLicense,
}

/// The number of files in a payload.
pub const PAYLOAD_FILE_COUNT: usize = 9;

/// Each payload file's position in `payload_files`.
pub open spec fn file_index(f: PayloadFile) -> int {
    match f {
        PayloadFile::Exe => 0,
        PayloadFile::Mcp => 1,
        PayloadFile::Marker => 2,
        PayloadFile::ConptyX64Dll => 3,
        PayloadFile::ConptyX64Host => 4,
        PayloadFile::ConptyX64Arm64Host => 5,
        PayloadFile::ConptyArm64Dll => 6,
        PayloadFile::ConptyArm64Host => 7,
        PayloadFile::ConptyLicense => 8,
    }
}

/// All payload files, in the order the archive rules try them.
pub open spec fn payload_files() -> Seq<PayloadFile> {
    seq![
        PayloadFile::Exe,
        PayloadFile::Mcp,
        PayloadFile::Marker,
        PayloadFile::ConptyX64Dll,
        PayloadFile::ConptyX64Host,
        PayloadFile::ConptyX64Arm64Host,
        PayloadFile::ConptyArm64Dll,
        PayloadFile::ConptyArm64Host,
        PayloadFile::ConptyLicense,
    ]
}

/// The path of a payload file below the portable root, by components.
pub open spec fn payload_path(f: PayloadFile) -> Seq<Seq<char>> {
    match f {
        PayloadFile::Exe => seq!["NyaTerm.exe"@],
        PayloadFile::Mcp => seq!["nyaterm-mcp.exe"@],
        PayloadFile::Marker => seq!["portable.flag"@],
        PayloadFile::ConptyX64Dll => seq!["conpty"@, "x64"@, "conpty.dll"@],
        PayloadFile::ConptyX64Host => seq!["conpty"@, "x64"@, "x64"@, "OpenConsole.exe"@],
        PayloadFile::ConptyX64Arm64Host => seq!["conpty"@, "x64"@, "arm64"@, "OpenConsole.exe"@],
        PayloadFile::ConptyArm64Dll => seq!["conpty"@, "arm64"@, "conpty.dll"@],
        PayloadFile::ConptyArm64Host => seq!["conpty"@, "arm64"@, "arm64"@, "OpenConsole.exe"@],
        PayloadFile::ConptyLicense => seq!["conpty"@, "LICENSE.txt"@],
    }
}

/// Whether a payload file belongs to the ConPTY directory.
pub open spec fn is_conpty_file(f: PayloadFile) -> bool {
    file_index(f) >= 3
}

/// The characters of each string.
pub open spec fn strs_view(s: Seq<&str>) -> Seq<Seq<char>> {
    s.map_values(|x: &str| x@)
}

/// The characters of each string.
pub open spec fn strings_view(s: Seq<String>) -> Seq<Seq<char>> {
    s.map_values(|x: String| x@)
}

impl PayloadFile {
    /// The file's path below the portable root, by components.
    pub fn relative_path(self) -> (res: Vec<&'static str>)
        ensures
            strs_view(res@) == payload_path(self),
    {
        let v = match self {
            PayloadFile::Exe => vec!["NyaTerm.exe"],
            PayloadFile::Mcp => vec!["nyaterm-mcp.exe"],
            PayloadFile::Marker => vec!["portable.flag"],
            PayloadFile::ConptyX64Dll => vec!["conpty", "x64", "conpty.dll"],
            PayloadFile::ConptyX64Host => vec!["conpty", "x64", "x64", "OpenConsole.exe"],
            PayloadFile::ConptyX64Arm64Host => vec!["conpty", "x64", "arm64", "OpenConsole.exe"],
            PayloadFile::ConptyArm64Dll => vec!["conpty", "arm64", "conpty.dll"],
            PayloadFile::ConptyArm64Host => vec!["conpty", "arm64", "arm64", "OpenConsole.exe"],
            PayloadFile::ConptyLicense => vec!["conpty", "LICENSE.txt"],
        };
        assert(strs_view(v@) =~= payload_path(self));
        v
    }

    /// The file's position in the list of payload files.
    pub fn index(self) -> (res: usize)
        ensures
            res == file_index(self),
    {
        match self {
            PayloadFile::Exe => 0,
            PayloadFile::Mcp => 1,
            PayloadFile::Marker => 2,
            PayloadFile::ConptyX64Dll => 3,
            PayloadFile::ConptyX64Host => 4,
            PayloadFile::ConptyX64Arm64Host => 5,
            PayloadFile::ConptyArm64Dll => 6,
            PayloadFile::ConptyArm64Host => 7,
            PayloadFile::ConptyLicense => 8,
        }
    }

    /// All payload files, in the order the archive rules try them.
    pub fn all() -> (res: Vec<PayloadFile>)
        ensures
            res@ == payload_files(),
    {
        let v = vec![
            PayloadFile::Exe,
            PayloadFile::Mcp,
            PayloadFile::Marker,
            PayloadFile::ConptyX64Dll,
            PayloadFile::ConptyX64Host,
            PayloadFile::ConptyX64Arm64Host,
            PayloadFile::ConptyArm64Dll,
            PayloadFile::ConptyArm64Host,
            PayloadFile::ConptyLicense,
        ];
        assert(v@ =~= payload_files());
        v
    }
}

/// The payload file at `rel`, trying the files in order.
pub open spec fn classify_from(rel: Seq<Seq<char>>, i: int) -> Option<PayloadFile>
    decreases 9 - i,
{
    if i >= 9 || i < 0 {
        None
    } else if rel == payload_path(payload_files()[i]) {
        Some(payload_files()[i])
    } else {
        classify_from(rel, i + 1)
    }
}

/// The payload file whose path below the portable root is `rel`, if any.
pub open spec fn classify(rel: Seq<Seq<char>>) -> Option<PayloadFile> {
    classify_from(rel, 0)
}

/// Why an archive entry is refused.
pub enum ScanRefusal {
    UnsafePath,
    UnexpectedRoot,
    UnsafeRelativePath,
    SymbolicLink,
    Duplicate(PayloadFile),
    UnexpectedFile(Seq<Seq<char>>),
    TooLarge,
}

/// What the archive rules remember between entries.
pub struct ScanState {
    /// Which payload files were seen, by `file_index`.
    pub found: Seq<bool>,
    /// The sum of the declared sizes of the payload files seen.
    pub total: u64,
}

/// The state before the first entry.
pub open spec fn scan_start() -> ScanState {
    ScanState { found: Seq::new(9, |i: int| false), total: 0 }
}

/// Whether every part is a plain name.
pub open spec fn all_normal(parts: Seq<PathPartView>) -> bool {
    forall|i: int| 0 <= i < parts.len() ==> parts[i] is Normal
}

/// The names of plain-name parts.
pub open spec fn part_names(parts: Seq<PathPartView>) -> Seq<Seq<char>> {
    parts.map_values(|p: PathPartView| p->Normal_0)
}

/// `a + b`, or `u64::MAX` when that overflows.
pub open spec fn saturating_sum(a: u64, b: u64) -> u64 {
    if a + b > u64::MAX { u64::MAX } else { (a + b) as u64 }
}

/// The archive rules for one entry: refuse it, skip it, or extract it as a
/// payload file. Entries must lie below `NyaTerm-portable/` with plain names
/// only; directories, the root itself and everything below `data/` are
/// skipped; symbolic links, unknown files and second copies of a payload file
/// are refused; and the declared sizes of the extracted files may not add up
/// to more than `MAX_PAYLOAD_BYTES`.
pub open spec fn scan_step(st: ScanState, e: ArchiveEntryView) -> Result<(ScanState, Option<PayloadFile>), ScanRefusal> {
    match e.path {
        None => Err(ScanRefusal::UnsafePath),
        Some(parts) => if parts.len() == 0 || parts[0] != PathPartView::Normal("NyaTerm-portable"@) {
            Err(ScanRefusal::UnexpectedRoot)
        } else if !all_normal(parts.skip(1)) {
            Err(ScanRefusal::UnsafeRelativePath)
        } else {
            let rel = part_names(parts.skip(1));
            if rel.len() == 0 || e.is_dir {
                Ok((st, None))
            } else if e.is_symlink {
                Err(ScanRefusal::SymbolicLink)
            } else if rel[0] == "data"@ {
                Ok((st, None))
            } else {
                match classify(rel) {
                    None => Err(ScanRefusal::UnexpectedFile(rel)),
                    Some(f) => if st.found[file_index(f)] {
                        Err(ScanRefusal::Duplicate(f))
                    } else {
                        let total = saturating_sum(st.total, e.size);
                        if total > MAX_PAYLOAD_BYTES {
                            Err(ScanRefusal::TooLarge)
                        } else {
                            Ok((ScanState { found: st.found.update(file_index(f), true), total }, Some(f)))
                        }
                    },
                }
            }
        },
    }
}

/// The size rule refuses an entry only when the declared sizes of the files
/// extracted so far and of this one add up to more than 512 MiB, and an
/// extracted entry adds its declared size to a total of at most 512 MiB.
pub proof fn lemma_size_limit_is_512_mib(st: ScanState, e: ArchiveEntryView)
    ensures
        scan_step(st, e) matches Err(ScanRefusal::TooLarge) ==> st.total + e.size > 512 * 1024 * 1024,
        scan_step(st, e) matches Ok((next, Some(_))) ==> {
            &&& next.total == st.total + e.size
            &&& st.total + e.size <= 512 * 1024 * 1024
        },
        scan_step(st, e) matches Ok((next, None)) ==> next == st,
{
}

/// The first three payload files are the program files in the root, and the
/// other six are the files of the `conpty` directory.
pub proof fn lemma_conpty_files_are_the_last_six()
    ensures
        payload_files().len() == 9,
        forall|i: int| 3 <= i < 9 ==> {
            &&& payload_path(#[trigger] payload_files()[i]).len() >= 2
            &&& payload_path(payload_files()[i])[0] == "conpty"@
            &&& is_conpty_file(payload_files()[i])
        },
        forall|i: int| 0 <= i < 3 ==> {
            &&& payload_path(#[trigger] payload_files()[i]).len() == 1
            &&& !is_conpty_file(payload_files()[i])
        },
        forall|f: PayloadFile| payload_files()[file_index(f)] == f,
{
}

/// Whether `e` is the error that reports `r`.
pub open spec fn reports_refusal(e: UpdateError, r: ScanRefusal) -> bool {
    match r {
        ScanRefusal::UnsafePath => e is UnsafePath,
        ScanRefusal::UnexpectedRoot => e is UnexpectedRoot,
        ScanRefusal::UnsafeRelativePath => e is UnsafeRelativePath,
        ScanRefusal::SymbolicLink => e is SymbolicLink,
        ScanRefusal::Duplicate(f) => match f {
            PayloadFile::Exe => e is DuplicateExe,
            PayloadFile::Mcp => e is DuplicateMcp,
            PayloadFile::Marker => e is DuplicateMarker,
            _ => e matches UpdateError::DuplicateConpty(p) && strings_view(p@) == payload_path(f),
        },
        ScanRefusal::UnexpectedFile(rel) => e matches UpdateError::UnexpectedFile(p) && strings_view(p@) == rel,
        ScanRefusal::TooLarge => e is ArchiveTooLarge,
    }
}

/// The archive rules applied to a run of entries: the state after them and the
/// payload files extracted, in order, or the first refusal.
pub open spec fn scan_entries(entries: Seq<ArchiveEntryView>) -> Result<(ScanState, Seq<PayloadFile>), ScanRefusal>
    decreases entries.len(),
{
    if entries.len() == 0 {
        Ok((scan_start(), Seq::empty()))
    } else {
        match scan_entries(entries.drop_last()) {
            Err(r) => Err(r),
            Ok((st, files)) => match scan_step(st, entries.last()) {
                Err(r) => Err(r),
                Ok((st2, action)) => Ok((st2, match action {
                    Some(f) => files.push(f),
                    None => files,
                })),
            },
        }
    }
}

/// Whether every payload file has been seen.
pub open spec fn all_found(st: ScanState) -> bool {
    forall|i: int| 0 <= i < 9 ==> st.found[i]
}

/// The archive-rule state of an extraction in progress.
#[derive(Debug)]
pub struct PayloadScan {
    found: Vec<bool>,
    total: u64,
}

impl View for PayloadScan {
    type V = ScanState;

    closed spec fn view(&self) -> ScanState {
        ScanState { found: self.found@, total: self.total }
    }
}

impl PayloadScan {
    /// The scan holds one flag per payload file.
    pub closed spec fn wf(&self) -> bool {
        self.found@.len() == 9
    }

    /// A scan that has seen no entry.
    pub fn new() -> (res: PayloadScan)
        ensures
            res.wf(),
            res@ == scan_start(),
    {
        let res = PayloadScan { found: vec![false, false, false, false, false, false, false, false, false], total: 0 };
        assert(res@.found =~= scan_start().found);
        res
    }

    /// Applies the archive rules to one entry (see `scan_step`): `Ok(Some(f))`
    /// when the entry is to be extracted as `f`, `Ok(None)` when it is skipped.
    pub fn scan_entry(&mut self, entry: &ArchiveEntry) -> (res: Result<Option<PayloadFile>, UpdateError>)
        requires
            old(self).wf(),
        ensures
            final(self).wf(),
            match scan_step(old(self)@, entry@) {
                Ok((st, action)) => res == Ok::<Option<PayloadFile>, UpdateError>(action) && final(self)@ == st,
                Err(r) => res matches Err(e) && reports_refusal(e, r),
            },
    {
        let parts = match &entry.path {
            None => return Err(UpdateError::UnsafePath),
            Some(parts) => parts,
        };
        let ghost pv = parts@.map_values(|p: PathPart| p@);
        if parts.len() == 0 {
            return Err(UpdateError::UnexpectedRoot);
        }
        match &parts[0] {
            PathPart::Normal(name) => {
                if !str_equal(name.as_str(), "NyaTerm-portable") {
                    return Err(UpdateError::UnexpectedRoot);
                }
            },
            _ => return Err(UpdateError::UnexpectedRoot),
        }
        assert(pv[0] == PathPartView::Normal("NyaTerm-portable"@));
        let mut rel: Vec<String> = Vec::new();
        let mut i: usize = 1;
        while i < parts.len()
            invariant
                1 <= i <= parts.len(),
                self.wf(),
                self@ == old(self)@,
                pv == parts@.map_values(|p: PathPart| p@),
                entry@.path == Some(pv),
                pv[0] == PathPartView::Normal("NyaTerm-portable"@),
                rel@.len() == i - 1,
                all_normal(pv.skip(1).take(i - 1)),
                strings_view(rel@) == part_names(pv.skip(1).take(i - 1)),
            decreases parts.len() - i,
        {
            match &parts[i] {
                PathPart::Normal(name) => {
                    let ghost before = rel@;
                    let n = name.clone();
                    rel.push(n);
                    assert(pv[i as int] == PathPartView::Normal(n@));
                    assert(strings_view(rel@) =~= strings_view(before).push(n@));
                },
                _ => {
                    assert(pv[i as int] == parts@[i as int]@);
                    assert(pv.skip(1)[i - 1] == pv[i as int]);
                    assert(!(pv.skip(1)[i - 1] is Normal));
                    return Err(UpdateError::UnsafeRelativePath);
                },
            }
            i = i + 1;
            assert(pv.skip(1).take(i - 1) =~= pv.skip(1).take(i - 2).push(pv[i - 1]));
            assert(part_names(pv.skip(1).take(i - 1)) =~= part_names(pv.skip(1).take(i - 2)).push(pv[i - 1]->Normal_0));
        }
        assert(pv.skip(1).take(i - 1) =~= pv.skip(1));
        let ghost relv = part_names(pv.skip(1));
        assert(strings_view(rel@) == relv);
        if rel.len() == 0 || entry.is_dir {
            return Ok(None);
        }
        if entry.is_symlink {
            return Err(UpdateError::SymbolicLink);
        }
        if str_equal(rel[0].as_str(), "data") {
            return Ok(None);
        }
        let file = match classify_relative(&rel) {
            None => return Err(UpdateError::UnexpectedFile(rel)),
            Some(f) => f,
        };
        let idx = file.index();
        proof {
            lemma_classify_path(relv, 0);
        }
        if self.found[idx] {
            return match file {
                PayloadFile::Exe => Err(UpdateError::DuplicateExe),
                PayloadFile::Mcp => Err(UpdateError::DuplicateMcp),
                PayloadFile::Marker => Err(UpdateError::DuplicateMarker),
                _ => Err(UpdateError::DuplicateConpty(rel)),
            };
        }
        let total = self.total.saturating_add(entry.size);
        if total > MAX_PAYLOAD_BYTES {
            return Err(UpdateError::ArchiveTooLarge);
        }
        self.found.set(idx, true);
        self.total = total;
        Ok(Some(file))
    }

    /// Whether every payload file has been seen.
    pub fn is_complete(&self) -> (res: bool)
        requires
            self.wf(),
        ensures
            res == all_found(self@),
    {
        let mut i: usize = 0;
        while i < 9
            invariant
                self.wf(),
                0 <= i <= 9,
                forall|j: int| 0 <= j < i ==> self.found@[j],
            decreases 9 - i,
        {
            if !self.found[i] {
                assert(!self@.found[i as int]);
                return false;
            }
            i = i + 1;
        }
        true
    }
}

proof fn lemma_classify_path(rel: Seq<Seq<char>>, i: int)
    ensures
        classify_from(rel, i) matches Some(f) ==> rel == payload_path(f),
    decreases 9 - i,
{
    if 0 <= i < 9 {
        lemma_classify_path(rel, i + 1);
    }
}

/// Whether `rel` is the path of payload file `f`.
fn path_is(rel: &Vec<String>, f: PayloadFile) -> (res: bool)
    ensures
        res == (strings_view(rel@) == payload_path(f)),
{
    let expected = f.relative_path();
    if rel.len() != expected.len() {
        return false;
    }
    let mut i: usize = 0;
    while i < rel.len()
        invariant
            0 <= i <= rel.len(),
            rel.len() == expected.len(),
            strs_view(expected@) == payload_path(f),
            forall|j: int| 0 <= j < i ==> rel@[j]@ == expected@[j]@,
        decreases rel.len() - i,
    {
        if !str_equal(rel[i].as_str(), expected[i]) {
            assert(strings_view(rel@)[i as int] != payload_path(f)[i as int]);
            return false;
        }
        i = i + 1;
    }
    assert(strings_view(rel@) =~= payload_path(f));
    true
}

/// The payload file at `rel`, if any (see `classify`).
fn classify_relative(rel: &Vec<String>) -> (res: Option<PayloadFile>)
    ensures
        res == classify(strings_view(rel@)),
{
    let files = PayloadFile::all();
    let mut i: usize = 0;
    while i < files.len()
        invariant
            0 <= i <= files.len(),
            files@ == payload_files(),
            classify(strings_view(rel@)) == classify_from(strings_view(rel@), i as int),
        decreases files.len() - i,
    {
        if path_is(rel, files[i]) {
            return Some(files[i]);
        }
        i = i + 1;
    }
    None
}

/// The payload files `files` are recorded in `st` exactly: each seen once, and
/// the declared sizes within the limit.
pub open spec fn scan_records(st: ScanState, files: Seq<PayloadFile>) -> bool {
    &&& st.found.len() == 9
    &&& forall|k: int| 0 <= k < 9 ==> (st.found[k] <==> exists|j: int| 0 <= j < files.len() && file_index(#[trigger] files[j]) == k)
    &&& forall|a: int, b: int| 0 <= a < b < files.len() ==> files[a] != files[b]
    &&& st.total <= MAX_PAYLOAD_BYTES
}

proof fn lemma_file_index_injective(f: PayloadFile, g: PayloadFile)
    ensures
        file_index(f) == file_index(g) ==> f == g,
        0 <= file_index(f) < 9,
{
}

/// The archive rules never extract a payload file twice, remember exactly
/// which files were extracted, and keep the declared sizes of the extracted
/// files within `MAX_PAYLOAD_BYTES`.
pub proof fn lemma_scan_records_extracted_files(entries: Seq<ArchiveEntryView>)
    ensures
        scan_entries(entries) matches Ok((st, files)) ==> scan_records(st, files),
    decreases entries.len(),
{
    if entries.len() > 0 {
        lemma_scan_records_extracted_files(entries.drop_last());
        if let Ok((st, files)) = scan_entries(entries.drop_last()) {
            if let Ok((st2, Some(f))) = scan_step(st, entries.last()) {
                let files2 = files.push(f);
                assert forall|k: int| 0 <= k < 9 implies (st2.found[k] <==> exists|j: int|
                    0 <= j < files2.len() && file_index(#[trigger] files2[j]) == k) by {
                    if st2.found[k] {
                        if k == file_index(f) {
                            assert(file_index(files2[files.len() as int]) == k);
                        } else {
                            let j = choose|j: int| 0 <= j < files.len() && file_index(#[trigger] files[j]) == k;
                            assert(file_index(files2[j]) == k);
                        }
                    }
                    if exists|j: int| 0 <= j < files2.len() && file_index(#[trigger] files2[j]) == k {
                        let j = choose|j: int| 0 <= j < files2.len() && file_index(#[trigger] files2[j]) == k;
                        if j < files.len() {
                            assert(files2[j] == files[j]);
                        }
                    }
                }
                assert forall|a: int, b: int| 0 <= a < b < files2.len() implies files2[a] != files2[b] by {
                    if b == files.len() {
                        assert(file_index(files[a]) == file_index(files[a]));
                        lemma_file_index_injective(files[a], f);
                    }
                }
            }
        }
    }
}

/// An extraction whose rules saw every payload file extracted each of them
/// exactly once: the extracted files are the nine payload files in some order.
pub proof fn lemma_complete_scan_extracts_each_file_once(entries: Seq<ArchiveEntryView>)
    ensures
        scan_entries(entries) matches Ok((st, files)) ==> (all_found(st) ==> {
            &&& files.len() == 9
            &&& forall|f: PayloadFile| files.contains(f)
            &&& forall|a: int, b: int| 0 <= a < b < files.len() ==> files[a] != files[b]
        }),
{
    lemma_scan_records_extracted_files(entries);
    if let Ok((st, files)) = scan_entries(entries) {
        if all_found(st) {
            assert forall|f: PayloadFile| files.contains(f) by {
                lemma_file_index_injective(f, f);
                assert(st.found[file_index(f)]);
                let j = choose|j: int| 0 <= j < files.len() && file_index(#[trigger] files[j]) == file_index(f);
                lemma_file_index_injective(files[j], f);
            }
            lemma_distinct_files_at_most_nine(files);
            let all = payload_files();
            assert forall|i: int| 0 <= i < 9 implies files.contains(#[trigger] all[i]) by {}
            lemma_nine_distinct_files_at_least(files);
        }
    }
}

proof fn lemma_distinct_files_at_most_nine(files: Seq<PayloadFile>)
    requires
        forall|a: int, b: int| 0 <= a < b < files.len() ==> files[a] != files[b],
    ensures
        files.len() <= 9,
{
    let idx = files.map_values(|f: PayloadFile| file_index(f));
    let s = idx.to_set();
    assert forall|a: int, b: int| 0 <= a < b < idx.len() implies idx[a] != idx[b] by {
        lemma_file_index_injective(files[a], files[b]);
    }
    idx.unique_seq_to_set();
    assert forall|x: int| s.contains(x) implies 0 <= x < 9 by {
        let j = choose|j: int| 0 <= j < idx.len() && idx[j] == x;
        lemma_file_index_injective(files[j], files[j]);
    }
    assert(s.subset_of(vstd::set_lib::set_int_range(0, 9)));
    vstd::set_lib::lemma_int_range(0, 9);
    vstd::set_lib::lemma_len_subset(s, vstd::set_lib::set_int_range(0, 9));
}

proof fn lemma_nine_distinct_files_at_least(files: Seq<PayloadFile>)
    requires
        forall|f: PayloadFile| files.contains(f),
    ensures
        files.len() >= 9,
{
    let idx = files.map_values(|f: PayloadFile| file_index(f));
    let s = idx.to_set();
    assert forall|x: int| 0 <= x < 9 implies s.contains(x) by {
        let f = payload_files()[x];
        assert(files.contains(f));
        let j = choose|j: int| 0 <= j < files.len() && files[j] == f;
        assert(idx[j] == x);
    }
    assert(vstd::set_lib::set_int_range(0, 9).subset_of(s));
    vstd::set_lib::lemma_int_range(0, 9);
    idx.lemma_cardinality_of_set();
    vstd::set_lib::lemma_len_subset(vstd::set_lib::set_int_range(0, 9), s);
}

/// Entry `e` is a regular file at payload file `f`'s place below the portable root.
pub open spec fn entry_holds(e: ArchiveEntryView, f: PayloadFile) -> bool {
    &&& e.path matches Some(parts) && parts.len() >= 1 && parts[0] == PathPartView::Normal("NyaTerm-portable"@)
        && all_normal(parts.skip(1)) && part_names(parts.skip(1)) == payload_path(f)
    &&& !e.is_dir
    &&& !e.is_symlink
}

/// An entry that the archive rules extract as `f` is a regular file at `f`'s place.
pub proof fn lemma_scan_step_extracts(st: ScanState, e: ArchiveEntryView)
    ensures
        scan_step(st, e) matches Ok((_, Some(f))) ==> entry_holds(e, f),
{
    if let Some(parts) = e.path {
        lemma_classify_path(part_names(parts.skip(1)), 0);
    }
}

} // verus!
