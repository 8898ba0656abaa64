use vstd::prelude::*;

use std::io::Read;
use std::path::Component;

use crate::error::UpdateError;
use crate::payload::{
    all_found, lemma_complete_scan_extracts_each_file_once, lemma_scan_step_extracts, payload_path, reports_refusal,
    scan_entries, scan_start, scan_step, ArchiveEntry, ArchiveEntryView, PathPart, PathPartView, PayloadFile, PayloadScan,
    MAX_ARCHIVE_ENTRIES, MAX_PAYLOAD_BYTES, entry_holds,
};

verus! {

#[verifier::external_type_specification]
#[verifier::external_body]
#[verifier::reject_recursive_types(R)]
pub struct ExZipArchive<R>(zip::ZipArchive<R>);

#[verifier::external_type_specification]
#[verifier::external_body]
#[verifier::reject_recursive_types(T)]
pub struct ExCursor<T>(std::io::Cursor<T>);

/// One entry of a zip archive as the zip reader sees it.
pub struct ZipRecord {
    /// The entry's path (as `enclosed_name` makes it safe off Windows, split
    /// into components), kind and declared size, from the central directory.
    pub entry: ArchiveEntryView,
    /// The path `enclosed_name` gives on Windows, where it also refuses the
    /// components Windows cannot hold (device names such as `CON`, colons,
    /// trailing dots or spaces, control characters, over-long names).
    pub windows_path: Option<Seq<PathPartView>>,
    /// Whether `by_index` opens the entry (its local header reads and its
    /// compression method is supported).
    pub opens: bool,
    /// Whether reading the first `n` bytes of the decompressed data succeeds
    /// (with the checksum test when the data end within them).
    pub reads_upto: spec_fn(nat) -> bool,
    /// The decompressed data.
    pub content: Seq<u8>,
}

/// `e` is what the zip reader reports for the record `r` on some platform:
/// off Windows its entry as is, on Windows with the Windows path.
pub open spec fn entry_seen(r: ZipRecord, e: ArchiveEntryView) -> bool {
    ||| e == r.entry
    ||| e == ArchiveEntryView {
        path: r.windows_path,
        is_dir: r.entry.is_dir,
        is_symlink: r.entry.is_symlink,
        size: r.entry.size,
    }
}

/// Each of `entries` is what the zip reader reports for the record at its place.
pub open spec fn seen_from(records: Seq<ZipRecord>, entries: Seq<ArchiveEntryView>) -> bool {
    &&& entries.len() <= records.len()
    &&& forall|k: int| 0 <= k < entries.len() ==> #[trigger] entry_seen(records[k], entries[k])
}

/// An entry can be opened and its data read up to one byte over the size limit.
pub open spec fn readable(r: ZipRecord) -> bool {
    r.opens && (r.reads_upto)(MAX_PAYLOAD_BYTES as nat + 1)
}

/// What `zip::ZipArchive::new` reads from an in-memory archive: its entries,
/// or `None` when it refuses the bytes.
pub uninterp spec fn zip_read_entries(bytes: Seq<u8>) -> Option<Seq<ZipRecord>>;

/// The entries an opened zip archive holds.
pub uninterp spec fn zip_archive_records(archive: zip::ZipArchive<std::io::Cursor<Vec<u8>>>) -> Seq<ZipRecord>;

/// The first `n` elements of `s`, or all of `s` when it is shorter.
pub open spec fn prefix_upto(s: Seq<u8>, n: nat) -> Seq<u8> {
    if s.len() <= n {
        s
    } else {
        s.take(n as int)
    }
}

/// Opens an in-memory zip archive with `zip::ZipArchive::new`, which parses
/// the central directory and yields exactly the entries `zip_read_entries`
/// names; its error is turned into text.
#[verifier::external_body]
fn zip_open(bytes: &[u8]) -> (res: Result<zip::ZipArchive<std::io::Cursor<Vec<u8>>>, String>)
    ensures
        res is Ok <==> zip_read_entries(bytes@) is Some,
        res matches Ok(archive) ==> zip_archive_records(archive) == zip_read_entries(bytes@).unwrap(),
{
    zip::ZipArchive::new(std::io::Cursor::new(bytes.to_vec())).map_err(|e| e.to_string())
}

/// `zip::ZipArchive::len`: the number of entries.
#[verifier::external_body]
fn zip_len(archive: &zip::ZipArchive<std::io::Cursor<Vec<u8>>>) -> (res: usize)
    ensures
        res == zip_archive_records(*archive).len(),
{
    archive.len()
}

/// `zip::ZipArchive::by_index`, read for the entry's safe path
/// (`enclosed_name`, split into components by `Path::components`), kind and
/// declared size. It fails exactly when the entry does not open; which of
/// the two platform paths comes back depends on the platform it runs on.
#[verifier::external_body]
fn zip_entry(archive: &mut zip::ZipArchive<std::io::Cursor<Vec<u8>>>, index: usize) -> (res: Result<ArchiveEntry, String>)
    ensures
        zip_archive_records(*final(archive)) == zip_archive_records(*old(archive)),
        res is Ok <==> index < zip_archive_records(*old(archive)).len()
            && zip_archive_records(*old(archive))[index as int].opens,
        res matches Ok(e) ==> entry_seen(zip_archive_records(*old(archive))[index as int], e@),
{
    let entry = archive.by_index(index).map_err(|e| e.to_string())?;
    let path = entry.enclosed_name().map(|p| p.components().map(|c| match c {
        Component::Prefix(_) => PathPart::Prefix,
        Component::RootDir => PathPart::RootDir,
        Component::CurDir => PathPart::CurDir,
        Component::ParentDir => PathPart::ParentDir,
        Component::Normal(n) => PathPart::Normal(n.to_string_lossy().into_owned()),
    }).collect());
    Ok(ArchiveEntry { path, is_dir: entry.is_dir(), is_symlink: entry.is_symlink(), size: entry.size() })
}

/// Reads at most `limit` bytes of an entry's decompressed data
/// (`zip::ZipArchive::by_index`, then `Read::take` and `read_to_end`). It
/// fails exactly when the entry does not open or those bytes cannot be read.
#[verifier::external_body]
fn zip_entry_data(archive: &mut zip::ZipArchive<std::io::Cursor<Vec<u8>>>, index: usize, limit: u64) -> (res: Result<Vec<u8>, String>)
    ensures
        zip_archive_records(*final(archive)) == zip_archive_records(*old(archive)),
        res is Ok <==> index < zip_archive_records(*old(archive)).len()
            && zip_archive_records(*old(archive))[index as int].opens
            && (zip_archive_records(*old(archive))[index as int].reads_upto)(limit as nat),
        res matches Ok(d) ==> d@ == prefix_upto(zip_archive_records(*old(archive))[index as int].content, limit as nat),
{
    let entry = archive.by_index(index).map_err(|e| e.to_string())?;
    let mut data = Vec::new();
    entry.take(limit).read_to_end(&mut data).map_err(|e| e.to_string())?;
    Ok(data)
}

/// The archive rules refuse the entries `entries`, and `e` reports the refusal.
pub open spec fn refused_at(entries: Seq<ArchiveEntryView>, e: UpdateError) -> bool {
    scan_entries(entries) matches Err(r) && reports_refusal(e, r)
}

/// A payload file extracted from an update archive.
#[derive(Debug)]
pub struct ExtractedFile {
    pub file: PayloadFile,
    pub data: Vec<u8>,
}

/// Reads the payload files out of an update archive one at a time, applying
/// the archive rules to each entry in order.
pub struct PayloadReader {
    archive: zip::ZipArchive<std::io::Cursor<Vec<u8>>>,
    count: usize,
    next: usize,
    scan: PayloadScan,
    seen: Ghost<Seq<ArchiveEntryView>>,
    extracted: Ghost<Seq<PayloadFile>>,
}

impl PayloadReader {
    /// The archive's entries.
    pub closed spec fn records(&self) -> Seq<ZipRecord> {
        zip_archive_records(self.archive)
    }

    /// The entries looked at, as the zip reader reported them.
    pub closed spec fn entries(&self) -> Seq<ArchiveEntryView> {
        self.seen@
    }

    /// The payload files handed out so far, in order.
    pub closed spec fn extracted(&self) -> Seq<PayloadFile> {
        self.extracted@
    }

    /// The archive-rule state after the entries looked at.
    pub closed spec fn scan_state(&self) -> crate::payload::ScanState {
        self.scan@
    }

    /// The reader's state is the archive rules applied to the entries looked at.
    pub closed spec fn wf(&self) -> bool {
        &&& self.count == self.records().len()
        &&& self.count <= MAX_ARCHIVE_ENTRIES
        &&& self.next == self.seen@.len()
        &&& seen_from(self.records(), self.seen@)
        &&& self.scan.wf()
        &&& scan_entries(self.seen@) == Ok::<
            (crate::payload::ScanState, Seq<PayloadFile>),
            crate::payload::ScanRefusal,
        >((self.scan@, self.extracted@))
    }

    /// Opens an update archive. It is refused when the zip reader refuses it
    /// or when it lists more than `MAX_ARCHIVE_ENTRIES` entries.
    pub fn open(bytes: &[u8]) -> (res: Result<PayloadReader, UpdateError>)
        ensures
            match zip_read_entries(bytes@) {
                None => res matches Err(UpdateError::InvalidArchive(_)),
                Some(records) => if records.len() > MAX_ARCHIVE_ENTRIES {
                    res matches Err(UpdateError::TooManyEntries)
                } else {
                    res matches Ok(r) && r.wf() && r.records() == records
                        && r.entries() == Seq::<ArchiveEntryView>::empty()
                        && r.extracted() == Seq::<PayloadFile>::empty()
                },
            },
    {
        let archive = match zip_open(bytes) {
            Ok(a) => a,
            Err(e) => return Err(UpdateError::InvalidArchive(e)),
        };
        let count = zip_len(&archive);
        if count > MAX_ARCHIVE_ENTRIES {
            return Err(UpdateError::TooManyEntries);
        }
        let scan = PayloadScan::new();
        Ok(PayloadReader { archive, count, next: 0, scan, seen: Ghost(Seq::empty()), extracted: Ghost(Seq::empty()) })
    }

    /// Looks at the next entries until one is to be extracted, and hands it out
    /// with its data (at most `MAX_PAYLOAD_BYTES`); `Ok(None)` once every entry
    /// has been looked at. An error reports the first entry the archive rules
    /// refuse, an entry that cannot be opened or read, or one whose data exceed
    /// the limit.
    pub fn next_file(&mut self) -> (res: Result<Option<ExtractedFile>, UpdateError>)
        requires
            old(self).wf(),
        ensures
            final(self).records() == old(self).records(),
            seen_from(final(self).records(), final(self).entries()),
            old(self).entries().len() <= final(self).entries().len(),
            final(self).entries().take(old(self).entries().len() as int) == old(self).entries(),
            res matches Ok(Some(x)) ==> {
                &&& final(self).wf()
                &&& final(self).extracted() == old(self).extracted().push(x.file)
                &&& entry_holds(final(self).entries().last(), x.file)
                &&& x.data@ == final(self).records()[final(self).entries().len() - 1].content
                &&& x.data@.len() <= MAX_PAYLOAD_BYTES
            },
            res matches Ok(None) ==> {
                &&& final(self).wf()
                &&& final(self).entries().len() == final(self).records().len()
                &&& final(self).extracted() == old(self).extracted()
            },
            res matches Err(e) ==> {
                ||| e is ArchiveReadFailed && exists|k: int| old(self).entries().len() <= k < old(self).records().len()
                    && !(#[trigger] old(self).records()[k]).opens
                ||| e is Io && exists|k: int| old(self).entries().len() <= k < old(self).records().len()
                    && !readable(#[trigger] old(self).records()[k])
                ||| e is EntryTooLarge && exists|k: int| old(self).entries().len() <= k < old(self).records().len()
                    && (#[trigger] old(self).records()[k]).content.len() > MAX_PAYLOAD_BYTES
                ||| refused_at(final(self).entries(), e)
            },
    {
        let ghost records = self.records();
        let ghost start = self.seen@;
        while self.next < self.count
            invariant
                self.wf(),
                self.records() == records,
                records == old(self).records(),
                start == old(self).seen@,
                start.len() <= self.seen@.len(),
                self.seen@.take(start.len() as int) == start,
                self.extracted@ == old(self).extracted@,
            decreases self.count - self.next,
        {
            let index = self.next;
            let entry = match zip_entry(&mut self.archive, index) {
                Ok(e) => e,
                Err(e) => return Err(UpdateError::ArchiveReadFailed(e)),
            };
            let ghost before = self.scan@;
            let ghost old_seen = self.seen@;
            let ghost now_seen = old_seen.push(entry@);
            assert(now_seen.drop_last() =~= old_seen);
            assert(now_seen.take(start.len() as int) =~= start);
            let action = self.scan.scan_entry(&entry);
            proof {
                self.seen = Ghost(now_seen);
                assert(seen_from(records, now_seen)) by {
                    assert forall|k: int| 0 <= k < now_seen.len() implies #[trigger] entry_seen(records[k], now_seen[k]) by {
                        if k < old_seen.len() {
                            assert(now_seen[k] == old_seen[k]);
                        }
                    }
                }
            }
            match action {
                Err(e) => {
                    assert(refused_at(now_seen, e));
                    return Err(e);
                },
                Ok(None) => {
                    self.next = index + 1;
                },
                Ok(Some(file)) => {
                    proof {
                        lemma_scan_step_extracts(before, entry@);
                    }
                    let data = match zip_entry_data(&mut self.archive, index, MAX_PAYLOAD_BYTES + 1) {
                        Ok(d) => d,
                        Err(e) => {
                            assert(!readable(records[index as int]));
                            return Err(UpdateError::Io(e));
                        },
                    };
                    if data.len() as u64 > MAX_PAYLOAD_BYTES {
                        return Err(UpdateError::EntryTooLarge);
                    }
                    self.next = index + 1;
                    self.extracted = Ghost(self.extracted@.push(file));
                    return Ok(Some(ExtractedFile { file, data }));
                },
            }
        }
        Ok(None)
    }

    /// Checks that the archive held every payload file. When it did, the files
    /// handed out are the nine payload files, each exactly once.
    pub fn finish(&self) -> (res: Result<(), UpdateError>)
        requires
            self.wf(),
        ensures
            res is Ok <==> all_found(self.scan_state()),
            res matches Err(e) ==> e is MissingRequiredFile,
            res is Ok ==> {
                &&& self.extracted().len() == 9
                &&& forall|f: PayloadFile| self.extracted().contains(f)
            },
    {
        proof {
            lemma_complete_scan_extracts_each_file_once(self.seen@);
        }
        if self.scan.is_complete() {
            Ok(())
        } else {
            Err(UpdateError::MissingRequiredFile)
        }
    }
}

} // verus!
