use crate::selection::DeploymentFileGlobError;
use vstd::prelude::*;

verus! {

/// Why an archive could not be written. A failed write leaves no usable
/// archive behind.
#[derive(Debug, Clone)]
pub enum DeploymentFileArchiveError {
    ZipError(String),
    GlobError(DeploymentFileGlobError),
    CopyError(String),
}

/// One member of an archive: a directory, recorded empty, or a file with the
/// bytes it held.
#[derive(Debug, Clone)]
pub enum ArchiveEntry {
    Directory { path: String },
    File { path: String, data: Vec<u8> },
}

/// An entry as the archive records it: its name, and the content of a file
/// (`None` for a directory).
pub type EntryModel = (Seq<char>, Option<Seq<u8>>);

/// The entry name under which zip records `path`: separators made `/`, and
/// `.` and `..` components resolved.
pub uninterp spec fn zip_name(path: Seq<char>) -> Seq<char>;

/// A directory's entry name ends with a separator; zip adds `/` when missing.
pub open spec fn dir_name(name: Seq<char>) -> Seq<char> {
    if name.len() > 0 && (name.last() == '/' || name.last() == '\\') {
        name
    } else {
        name + seq!['/']
    }
}

/// The longest path, in characters, whose entry name surely fits the two
/// bytes that zip stores a name's length in.
pub const MAX_PATH_CHARS: usize = 16383;

/// The largest file that an archive without zip64 extensions can hold.
pub const MAX_FILE_BYTES: u64 = 0xFFFF_FFFF;

impl ArchiveEntry {
    pub open spec fn path_view(&self) -> Seq<char> {
        match self {
            ArchiveEntry::Directory { path } => path@,
            ArchiveEntry::File { path, .. } => path@,
        }
    }

    pub open spec fn model(&self) -> EntryModel {
        match self {
            ArchiveEntry::Directory { path } => (dir_name(zip_name(path@)), None),
            ArchiveEntry::File { path, data } => (zip_name(path@), Some(data@)),
        }
    }

    /// Small enough for zip to take: a short path, a file under 4 GiB.
    pub open spec fn fits(&self) -> bool {
        &&& self.path_view().len() <= MAX_PATH_CHARS
        &&& self matches ArchiveEntry::File { data, .. } ==> data@.len() <= MAX_FILE_BYTES
    }
}

pub open spec fn entries_model(entries: Seq<ArchiveEntry>) -> Seq<EntryModel> {
    entries.map_values(|e: ArchiveEntry| e.model())
}

/// The names recorded in `contents`.
pub open spec fn names(contents: Seq<EntryModel>) -> Seq<Seq<char>> {
    contents.map_values(|e: EntryModel| e.0)
}

/// Every entry fits, and no two entries, old or new, share a name.
pub open spec fn can_record(existing: Seq<EntryModel>, entries: Seq<ArchiveEntry>) -> bool {
    &&& forall|i: int| 0 <= i < entries.len() ==> (#[trigger] entries[i]).fits()
    &&& forall|i: int| 0 <= i < entries.len() ==> !names(existing).contains(#[trigger] entries[i].model().0)
    &&& forall|i: int, j: int|
        0 <= i < j < entries.len() ==> #[trigger] entries[i].model().0 != #[trigger] entries[j].model().0
}

/// A zip archive being written into memory, stored without compression.
#[verifier::external_body]
pub struct ArchiveWriter {
    inner: zip::ZipWriter<std::io::Cursor<Vec<u8>>>,
}

/// The entries recorded so far by an archive writer, in the order written.
pub uninterp spec fn archive_contents(w: ArchiveWriter) -> Seq<EntryModel>;

/// The bytes of the finished archive that holds `contents`. They depend on
/// the entries alone: no time stamp is taken from the clock.
pub uninterp spec fn zip_bytes(contents: Seq<EntryModel>) -> Seq<u8>;

impl ArchiveWriter {
    /// Relies on zip::ZipWriter::new: a new writer holds no entry.
    #[verifier::external_body]
    pub fn new() -> (r: ArchiveWriter)
        ensures
            archive_contents(r) == Seq::<EntryModel>::empty(),
    {
        ArchiveWriter { inner: zip::ZipWriter::new(std::io::Cursor::new(Vec::new())) }
    }

    /// Relies on zip::ZipWriter::add_directory_from_path: it records an empty
    /// directory entry under the normalized name with a trailing `/`, and
    /// fails only when that name is taken.
    #[verifier::external_body]
    pub fn add_directory(&mut self, path: &String) -> (r: Result<(), DeploymentFileArchiveError>)
        requires
            path@.len() <= MAX_PATH_CHARS,
        ensures
            r is Ok <==> !names(archive_contents(*old(self))).contains(dir_name(zip_name(path@))),
            r is Ok ==> archive_contents(*final(self)) == archive_contents(*old(self)).push(
                (dir_name(zip_name(path@)), None),
            ),
    {
        self.inner.add_directory_from_path(path, zip::write::SimpleFileOptions::default()).map_err(
            |e| DeploymentFileArchiveError::ZipError(format!("{:?}", e)),
        )
    }

    /// Relies on zip::ZipWriter::start_file_from_path: it records a file
    /// entry under the normalized name, empty until data is written into it,
    /// and fails only when that name is taken.
    #[verifier::external_body]
    pub fn start_file(&mut self, path: &String) -> (r: Result<(), DeploymentFileArchiveError>)
        requires
            path@.len() <= MAX_PATH_CHARS,
        ensures
            r is Ok <==> !names(archive_contents(*old(self))).contains(zip_name(path@)),
            r is Ok ==> archive_contents(*final(self)) == archive_contents(*old(self)).push(
                (zip_name(path@), Some(Seq::<u8>::empty())),
            ),
    {
        self.inner.start_file_from_path(path, zip::write::SimpleFileOptions::default()).map_err(
            |e| DeploymentFileArchiveError::ZipError(format!("{:?}", e)),
        )
    }

    /// Relies on `Write::write_all` of zip::ZipWriter: the bytes are appended
    /// to the file entry started last, which succeeds while that file stays
    /// within 4 GiB.
    #[verifier::external_body]
    pub fn write_data(&mut self, data: &[u8]) -> (r: Result<(), DeploymentFileArchiveError>)
        requires
            archive_contents(*old(self)).len() > 0,
            archive_contents(*old(self)).last().1 is Some,
        ensures
            archive_contents(*old(self)).last().1.unwrap().len() + data@.len() <= MAX_FILE_BYTES
                ==> r is Ok,
            r is Ok ==> archive_contents(*final(self)) == archive_contents(*old(self)).drop_last().push(
                (
                    archive_contents(*old(self)).last().0,
                    Some(archive_contents(*old(self)).last().1.unwrap() + data@),
                ),
            ),
    {
        std::io::Write::write_all(&mut self.inner, data).map_err(
            |e| DeploymentFileArchiveError::CopyError(format!("{:?}", e)),
        )
    }

    /// Relies on zip::ZipWriter::finish: it writes the central directory into
    /// memory, which cannot fail, and hands back the archive's bytes.
    #[verifier::external_body]
    pub fn finish(self) -> (r: Result<Vec<u8>, DeploymentFileArchiveError>)
        ensures
            r is Ok,
            r is Ok ==> r->Ok_0@ == zip_bytes(archive_contents(self)),
    {
        self.inner.finish().map(|c| c.into_inner()).map_err(
            |e| DeploymentFileArchiveError::ZipError(format!("{:?}", e)),
        )
    }
}

/// Records each entry in turn: a directory as an empty entry, a file with its
/// bytes copied verbatim. Stops at the first error, which comes only when an
/// entry name is taken or a file is too large.
pub fn write_entries(w: &mut ArchiveWriter, entries: &Vec<ArchiveEntry>) -> (r: Result<
    (),
    DeploymentFileArchiveError,
>)
    requires
        forall|i: int| 0 <= i < entries.len() ==> (#[trigger] entries@[i]).path_view().len()
            <= MAX_PATH_CHARS,
    ensures
        can_record(archive_contents(*old(w)), entries@) ==> r is Ok,
        r is Ok ==> archive_contents(*final(w)) == archive_contents(*old(w)) + entries_model(
            entries@,
        ),
{
    let ghost start = archive_contents(*w);
    let ghost fresh = can_record(start, entries@);
    let mut i: usize = 0;
    while i < entries.len()
        invariant
            i <= entries.len(),
            start == archive_contents(*old(w)),
            fresh == can_record(start, entries@),
            forall|k: int| 0 <= k < entries.len() ==> (#[trigger] entries@[k]).path_view().len()
                <= MAX_PATH_CHARS,
            archive_contents(*w) == start + entries_model(entries@.take(i as int)),
        decreases entries.len() - i,
    {
        let ghost before = archive_contents(*w);
        proof {
            assert(entries@.take(i as int + 1) =~= entries@.take(i as int).push(entries@[i as int]));
            if fresh {
                let name = entries@[i as int].model().0;
                assert(!names(before).contains(name)) by {
                    if names(before).contains(name) {
                        let k = choose|k: int| 0 <= k < names(before).len() && names(before)[k] == name;
                        if k < start.len() {
                            assert(names(start)[k] == name);
                        } else {
                            let j = k - start.len();
                            assert(entries@.take(i as int)[j] == entries@[j]);
                            assert(entries@[j].model().0 == name);
                        }
                    }
                }
            }
        }
        match &entries[i] {
            ArchiveEntry::Directory { path } => {
                match w.add_directory(path) {
                    Ok(()) => {},
                    Err(e) => {
                        return Err(e);
                    },
                }
            },
            ArchiveEntry::File { path, data } => {
                match w.start_file(path) {
                    Ok(()) => {},
                    Err(e) => {
                        return Err(e);
                    },
                }
                proof {
                    if fresh {
                        assert(entries@[i as int].fits());
                    }
                }
                match w.write_data(data.as_slice()) {
                    Ok(()) => {},
                    Err(e) => {
                        return Err(e);
                    },
                }
                assert(Seq::<u8>::empty() + data@ =~= data@);
            },
        }
        assert(archive_contents(*w) =~= start + entries_model(entries@.take(i as int + 1)));
        i = i + 1;
    }
    assert(entries@.take(entries.len() as int) =~= entries@);
    Ok(())
}

/// Archiving preserves content: in what `write_entries` records, every file
/// entry holds exactly the bytes of its source, under its path's entry name,
/// and every directory entry is empty.
pub proof fn lemma_entries_verbatim(entries: Seq<ArchiveEntry>, i: int)
    requires
        0 <= i < entries.len(),
    ensures
        entries[i] matches ArchiveEntry::File { path, data } ==> entries_model(entries)[i] == (
            zip_name(path@),
            Some(data@),
        ),
        entries[i] matches ArchiveEntry::Directory { path } ==> entries_model(entries)[i] == (
            dir_name(zip_name(path@)),
            None::<Seq<u8>>,
        ),
{
}

/// Writes `entries` into a new zip archive and returns its bytes: the archive
/// that holds exactly those entries, in order. It succeeds whenever every
/// entry fits and no two entries share a name.
pub fn write_archive(entries: &Vec<ArchiveEntry>) -> (r: Result<Vec<u8>, DeploymentFileArchiveError>)
    requires
        forall|i: int| 0 <= i < entries.len() ==> (#[trigger] entries@[i]).path_view().len()
            <= MAX_PATH_CHARS,
    ensures
        can_record(Seq::empty(), entries@) ==> r is Ok,
        r is Ok ==> r->Ok_0@ == zip_bytes(entries_model(entries@)),
{
    let mut w = ArchiveWriter::new();
    match write_entries(&mut w, entries) {
        Ok(()) => {},
        Err(e) => {
            return Err(e);
        },
    }
    assert(Seq::<EntryModel>::empty() + entries_model(entries@) =~= entries_model(entries@));
    w.finish()
}

/// Whether a member whose canonical path is `canonical` is one of the
/// `exclusions`. A member whose path could not be made canonical is kept.
pub open spec fn is_excluded(canonical: Option<Seq<char>>, exclusions: Seq<Seq<char>>) -> bool {
    match canonical {
        Some(c) => exclusions.contains(c),
        None => false,
    }
}

/// The members of `paths` that go into the archive: those whose canonical
/// path is no exclusion, in their order.
pub open spec fn archived_members(
    paths: Seq<Seq<char>>,
    canonical: Seq<Option<Seq<char>>>,
    exclusions: Seq<Seq<char>>,
) -> Seq<Seq<char>>
    decreases paths.len(),
{
    if paths.len() == 0 || canonical.len() == 0 {
        Seq::empty()
    } else {
        let rest = archived_members(paths.drop_last(), canonical.drop_last(), exclusions);
        if is_excluded(canonical.last(), exclusions) {
            rest
        } else {
            rest.push(paths.last())
        }
    }
}

/// Drops every member of `paths` whose canonical path (`canonical[i]` for
/// `paths[i]`) is one of the canonical `exclusions`; that is how an archive
/// written inside the project never holds itself.
pub fn archive_members(
    paths: &Vec<String>,
    canonical: &Vec<Option<String>>,
    exclusions: &Vec<String>,
) -> (r: Vec<String>)
    requires
        paths.len() == canonical.len(),
    ensures
        r.deep_view() == archived_members(
            paths.deep_view(),
            canonical.deep_view(),
            exclusions.deep_view(),
        ),
{
    let ghost ex = exclusions.deep_view();
    let mut r: Vec<String> = Vec::new();
    let mut i: usize = 0;
    while i < paths.len()
        invariant
            i <= paths.len(),
            paths.len() == canonical.len(),
            ex == exclusions.deep_view(),
            r.deep_view() == archived_members(
                paths.deep_view().take(i as int),
                canonical.deep_view().take(i as int),
                ex,
            ),
        decreases paths.len() - i,
    {
        let excluded = match &canonical[i] {
            Some(c) => crate::selection::contains_path(exclusions, c),
            None => false,
        };
        assert(paths.deep_view().take(i as int + 1).drop_last() =~= paths.deep_view().take(
            i as int,
        ));
        assert(canonical.deep_view().take(i as int + 1).drop_last() =~= canonical.deep_view().take(
            i as int,
        ));
        assert(excluded == is_excluded(canonical.deep_view()[i as int], ex));
        if !excluded {
            r.push(paths[i].clone());
        }
        assert(r.deep_view() =~= archived_members(
            paths.deep_view().take(i as int + 1),
            canonical.deep_view().take(i as int + 1),
            ex,
        ));
        i = i + 1;
    }
    assert(paths.deep_view().take(paths.len() as int) =~= paths.deep_view());
    assert(canonical.deep_view().take(paths.len() as int) =~= canonical.deep_view());
    r
}

/// No archived member is an excluded one: each comes from a member whose
/// canonical path is none of the exclusions, so an archive whose own
/// destination is among them never holds itself.
pub proof fn lemma_self_exclusion(
    paths: Seq<Seq<char>>,
    canonical: Seq<Option<Seq<char>>>,
    exclusions: Seq<Seq<char>>,
    j: int,
)
    requires
        paths.len() == canonical.len(),
        0 <= j < archived_members(paths, canonical, exclusions).len(),
    ensures
        exists|i: int|
            0 <= i < paths.len() && paths[i] == archived_members(paths, canonical, exclusions)[j]
                && !is_excluded(#[trigger] canonical[i], exclusions),
    decreases paths.len(),
{
    let rest = archived_members(paths.drop_last(), canonical.drop_last(), exclusions);
    if j < rest.len() {
        lemma_self_exclusion(paths.drop_last(), canonical.drop_last(), exclusions, j);
        let i = choose|i: int|
            0 <= i < paths.drop_last().len() && paths.drop_last()[i] == rest[j] && !is_excluded(
                #[trigger] canonical.drop_last()[i],
                exclusions,
            );
        assert(canonical.drop_last()[i] == canonical[i]);
        assert(paths[i] == archived_members(paths, canonical, exclusions)[j]);
    } else {
        let last = paths.len() - 1;
        assert(!is_excluded(canonical[last], exclusions));
        assert(paths[last] == archived_members(paths, canonical, exclusions)[j]);
    }
}

} // verus!

verus! {

/// The entries that go into the archive: those whose canonical path
/// (`canonical[i]` for `entries[i]`) is no exclusion, in their order.
pub open spec fn kept_entries(
    entries: Seq<ArchiveEntry>,
    canonical: Seq<Option<Seq<char>>>,
    exclusions: Seq<Seq<char>>,
) -> Seq<ArchiveEntry>
    decreases entries.len(),
{
    if entries.len() == 0 || canonical.len() == 0 {
        Seq::empty()
    } else {
        let rest = kept_entries(entries.drop_first(), canonical.drop_first(), exclusions);
        if is_excluded(canonical[0], exclusions) {
            rest
        } else {
            seq![entries[0]] + rest
        }
    }
}

/// Every kept entry comes from a member whose canonical path is none of the
/// exclusions: an archive whose own destination is excluded never holds it.
pub proof fn lemma_kept_not_excluded(
    entries: Seq<ArchiveEntry>,
    canonical: Seq<Option<Seq<char>>>,
    exclusions: Seq<Seq<char>>,
    j: int,
)
    requires
        entries.len() == canonical.len(),
        0 <= j < kept_entries(entries, canonical, exclusions).len(),
    ensures
        exists|i: int|
            0 <= i < entries.len() && entries[i] == kept_entries(entries, canonical, exclusions)[j]
                && !is_excluded(#[trigger] canonical[i], exclusions),
    decreases entries.len(),
{
    let rest = kept_entries(entries.drop_first(), canonical.drop_first(), exclusions);
    if is_excluded(canonical[0], exclusions) {
        lemma_kept_not_excluded(entries.drop_first(), canonical.drop_first(), exclusions, j);
        let i = choose|i: int|
            0 <= i < entries.drop_first().len() && entries.drop_first()[i] == rest[j] && !is_excluded(
                #[trigger] canonical.drop_first()[i],
                exclusions,
            );
        assert(canonical[i + 1] == canonical.drop_first()[i]);
    } else if j == 0 {
        assert(!is_excluded(canonical[0], exclusions));
    } else {
        lemma_kept_not_excluded(entries.drop_first(), canonical.drop_first(), exclusions, j - 1);
        let i = choose|i: int|
            0 <= i < entries.drop_first().len() && entries.drop_first()[i] == rest[j - 1]
                && !is_excluded(#[trigger] canonical.drop_first()[i], exclusions);
        assert(canonical[i + 1] == canonical.drop_first()[i]);
    }
}

/// Archives the selected members: drops each entry whose canonical path is
/// one of the canonical `exclusions` (so the archive never holds itself),
/// and writes the rest, in order. It succeeds whenever the kept entries fit
/// and no two share a name.
pub fn write_selection(
    entries: Vec<ArchiveEntry>,
    canonical: &Vec<Option<String>>,
    exclusions: &Vec<String>,
) -> (r: Result<Vec<u8>, DeploymentFileArchiveError>)
    requires
        entries.len() == canonical.len(),
        forall|i: int| 0 <= i < entries.len() ==> (#[trigger] entries@[i]).path_view().len()
            <= MAX_PATH_CHARS,
    ensures
        can_record(
            Seq::empty(),
            kept_entries(entries@, canonical.deep_view(), exclusions.deep_view()),
        ) ==> r is Ok,
        r is Ok ==> r->Ok_0@ == zip_bytes(
            entries_model(kept_entries(entries@, canonical.deep_view(), exclusions.deep_view())),
        ),
{
    let ghost all = entries@;
    let ghost cs = canonical.deep_view();
    let ghost ex = exclusions.deep_view();
    let mut rest = entries;
    let mut kept: Vec<ArchiveEntry> = Vec::new();
    let mut i: usize = 0;
    assert(cs.subrange(0, cs.len() as int) =~= cs);
    assert(all.subrange(0, all.len() as int) =~= all);
    assert(kept@ + kept_entries(all, cs, ex) =~= kept_entries(all, cs, ex));
    while rest.len() > 0
        invariant
            i <= canonical.len(),
            all.len() == canonical.len(),
            cs == canonical.deep_view(),
            ex == exclusions.deep_view(),
            rest@ == all.subrange(i as int, all.len() as int),
            kept_entries(all, cs, ex) == kept@ + kept_entries(
                rest@,
                cs.subrange(i as int, cs.len() as int),
                ex,
            ),
            forall|k: int| 0 <= k < all.len() ==> (#[trigger] all[k]).path_view().len() <= MAX_PATH_CHARS,
            forall|k: int| 0 <= k < kept.len() ==> (#[trigger] kept@[k]).path_view().len() <= MAX_PATH_CHARS,
        decreases rest.len(),
    {
        let ghost tail = cs.subrange(i as int, cs.len() as int);
        assert(tail.drop_first() =~= cs.subrange(i as int + 1, cs.len() as int));
        assert(rest@.drop_first() =~= all.subrange(i as int + 1, all.len() as int));
        assert(tail[0] == cs[i as int]);
        let excluded = match &canonical[i] {
            Some(c) => crate::selection::contains_path(exclusions, c),
            None => false,
        };
        assert(excluded == is_excluded(tail[0], ex));
        let e = rest.remove(0);
        if !excluded {
            let ghost before = kept@;
            kept.push(e);
            assert(kept@ + kept_entries(rest@, tail.drop_first(), ex) =~= before + (seq![e]
                + kept_entries(rest@, tail.drop_first(), ex)));
        }
        i = i + 1;
    }
    assert(kept_entries(rest@, cs.subrange(i as int, cs.len() as int), ex) =~= Seq::empty());
    assert(kept@ + Seq::<ArchiveEntry>::empty() =~= kept@);
    write_archive(&kept)
}

} // verus!
