//! Package archives: which directories and files their entries become below
//! the output directory. The archive format is read by `zip`.

use vstd::prelude::*;
use crate::errors::ExtractError;
use crate::paths::{
    escapes_root, has_parent_segment, is_directory_name, join_path, joined, names_directory,
    parent_dir, parent_of,
};

verus! {

/// `zip::read::ZipArchive`, an open archive over a reader; nothing of its
/// inside is known here.
#[verifier::external_type_specification]
#[verifier::external_body]
#[verifier::reject_recursive_types(R)]
pub struct ExZipArchive<R>(zip::read::ZipArchive<R>);

/// `std::io::Cursor`, the reader over the bytes of an archive in memory.
#[verifier::external_type_specification]
#[verifier::external_body]
#[verifier::reject_recursive_types(T)]
pub struct ExCursor<T>(std::io::Cursor<T>);

/// `zip::result::ZipError`, why an archive was not opened.
#[verifier::external_type_specification]
#[verifier::external_body]
pub struct ExZipError(zip::result::ZipError);

/// What reading one entry of an archive gives: its name and its bytes, or
/// nothing where the entry cannot be read.
pub type RawEntry = Option<(Seq<char>, Seq<u8>)>;

/// The entries of an open archive, in the archive's own order, each as
/// `ZipArchive::by_index_decrypt` with an empty password, `ZipFile::name` and
/// reading the entry to its end give it.
pub uninterp spec fn archive_entries(
    archive: zip::read::ZipArchive<std::io::Cursor<Vec<u8>>>,
) -> Seq<RawEntry>;

/// The entries that `ZipArchive::new` finds in `bytes`, or nothing where it
/// does not accept them as an archive.
pub uninterp spec fn zip_listing(bytes: Seq<u8>) -> Option<Seq<RawEntry>>;

/// Calls `zip::read::ZipArchive::new` on a cursor over `bytes`. Trusted: whether
/// the bytes are accepted, and which entries the archive then holds, depends on
/// the bytes alone.
#[verifier::external_body]
fn open_archive(bytes: Vec<u8>) -> (r: Result<
    zip::read::ZipArchive<std::io::Cursor<Vec<u8>>>,
    zip::result::ZipError,
>)
    ensures
        match r {
            Ok(archive) => zip_listing(bytes@) == Some(archive_entries(archive)),
            Err(_) => zip_listing(bytes@) is None,
        },
{
    zip::read::ZipArchive::new(std::io::Cursor::new(bytes))
}

/// Calls `zip::read::ZipArchive::len`. Trusted: it is the number of entries.
#[verifier::external_body]
fn archive_len(archive: &zip::read::ZipArchive<std::io::Cursor<Vec<u8>>>) -> (n: usize)
    ensures
        n == archive_entries(*archive).len(),
{
    archive.len()
}

/// Reads the entry at `index` with `zip::read::ZipArchive::by_index_decrypt`
/// and an empty password (`by_index` unwraps what this call reports of the
/// password, and so panics on some archives), `ZipFile::name` and
/// `Read::read_to_end`.
/// Trusted: the archive holds the same entries afterwards, and the result is
/// the entry at `index`; an index past the end gives nothing.
#[verifier::external_body]
fn read_entry(
    archive: &mut zip::read::ZipArchive<std::io::Cursor<Vec<u8>>>,
    index: usize,
) -> (r: Option<(String, Vec<u8>)>)
    ensures
        archive_entries(*final(archive)) == archive_entries(*old(archive)),
        match r {
            Some((name, data)) => index < archive_entries(*old(archive)).len()
                && archive_entries(*old(archive))[index as int] == Some((name@, data@)),
            None => index < archive_entries(*old(archive)).len() ==> archive_entries(
                *old(archive),
            )[index as int] is None,
        },
{
    let mut file = archive.by_index_decrypt(index, &[]).ok()?.ok()?;
    let mut data = Vec::new();
    std::io::Read::read_to_end(&mut file, &mut data).ok()?;
    Some((file.name().to_string(), data))
}

/// One thing to do on disk for one entry of an archive.
#[derive(Debug, PartialEq, Eq)]
pub enum ExtractStep {
    /// Create the directory `path` and all its ancestors; do nothing if it is
    /// there.
    CreateDir { path: String },
    /// Create `parent` and all its ancestors, where there is one; then create
    /// or overwrite the file `path` with `data`.
    WriteFile { parent: Option<String>, path: String, data: Vec<u8> },
}

/// The mathematical value of an [`ExtractStep`].
pub ghost enum ExtractStepView {
    CreateDir { path: Seq<char> },
    WriteFile { parent: Option<Seq<char>>, path: Seq<char>, data: Seq<u8> },
}

impl View for ExtractStep {
    type V = ExtractStepView;

    open spec fn view(&self) -> ExtractStepView {
        match self {
            ExtractStep::CreateDir { path } => ExtractStepView::CreateDir { path: path@ },
            ExtractStep::WriteFile { parent, path, data } => ExtractStepView::WriteFile {
                parent: match parent {
                    Some(p) => Some(p@),
                    None => None,
                },
                path: path@,
                data: data@,
            },
        }
    }
}

/// The step for an entry called `name` that holds `data`, below `output_dir`.
/// It is meant for names without a `..` segment.
pub open spec fn step_of(output_dir: Seq<char>, name: Seq<char>, data: Seq<u8>) -> ExtractStepView {
    if names_directory(name) {
        ExtractStepView::CreateDir { path: joined(output_dir, name) }
    } else {
        ExtractStepView::WriteFile {
            parent: parent_of(joined(output_dir, name)),
            path: joined(output_dir, name),
            data,
        }
    }
}

/// Decides what the entry at `index`, called `name` and holding `data`, becomes
/// below `output_dir`. A name with a `..` segment is refused, so that no entry
/// is written outside the output directory by way of its name; any other name
/// is joined to the output directory as it stands.
pub fn plan_entry(output_dir: &str, index: usize, name: &str, data: Vec<u8>) -> (r: Result<
    ExtractStep,
    ExtractError,
>)
    ensures
        has_parent_segment(name@) <==> r == Err::<ExtractStep, ExtractError>(
            ExtractError::Traversal { index },
        ),
        !has_parent_segment(name@) ==> r is Ok && r->Ok_0@ == step_of(output_dir@, name@, data@),
{
    if escapes_root(name) {
        return Err(ExtractError::Traversal { index });
    }
    let path = join_path(output_dir, name);
    if is_directory_name(name) {
        Ok(ExtractStep::CreateDir { path })
    } else {
        let parent = parent_dir(path.as_str());
        Ok(ExtractStep::WriteFile { parent, path, data })
    }
}

/// What becomes of an archive: the steps for its entries in the archive's
/// order, up to the first entry that fails, and that failure.
#[derive(Debug, PartialEq, Eq)]
pub struct Extraction {
    pub steps: Vec<ExtractStep>,
    pub failure: Option<ExtractError>,
}

/// The mathematical value of an [`Extraction`].
pub ghost struct ExtractionView {
    pub steps: Seq<ExtractStepView>,
    pub failure: Option<ExtractError>,
}

impl View for Extraction {
    type V = ExtractionView;

    open spec fn view(&self) -> ExtractionView {
        ExtractionView { steps: self.steps@.map_values(|s: ExtractStep| s@), failure: self.failure }
    }
}

/// Why the entry at `index` stops the extraction, if it does.
pub open spec fn entry_failure(entry: RawEntry, index: int) -> Option<ExtractError> {
    match entry {
        None => Some(ExtractError::Entry { index: index as usize }),
        Some((name, _)) => if has_parent_segment(name) {
            Some(ExtractError::Traversal { index: index as usize })
        } else {
            None
        },
    }
}

/// The index of the first entry from `from` on that stops the extraction, or
/// the number of entries where none does.
pub open spec fn first_failing(entries: Seq<RawEntry>, from: int) -> int
    decreases entries.len() - from,
{
    if from < 0 || from >= entries.len() {
        entries.len() as int
    } else if entry_failure(entries[from], from) is Some {
        from
    } else {
        first_failing(entries, from + 1)
    }
}

/// The extraction of an archive with the given listing below `output_dir`.
pub open spec fn extraction_of(listing: Option<Seq<RawEntry>>, output_dir: Seq<char>) -> ExtractionView {
    match listing {
        None => ExtractionView { steps: Seq::empty(), failure: Some(ExtractError::Open) },
        Some(entries) => {
            let stop = first_failing(entries, 0);
            ExtractionView {
                steps: Seq::new(
                    stop as nat,
                    |i: int| step_of(output_dir, entries[i].unwrap().0, entries[i].unwrap().1),
                ),
                failure: if stop < entries.len() {
                    entry_failure(entries[stop], stop)
                } else {
                    None
                },
            }
        },
    }
}

/// No entry before the first failing one fails.
pub proof fn lemma_entries_before_first_failing(entries: Seq<RawEntry>, from: int, j: int)
    requires
        0 <= from <= j < first_failing(entries, from),
    ensures
        j < entries.len(),
        entry_failure(entries[j], j) is None,
    decreases entries.len() - from,
{
    if from < entries.len() && entry_failure(entries[from], from) is None && from < j {
        lemma_entries_before_first_failing(entries, from + 1, j);
    }
}

/// The first failing entry lies within the archive or right behind it, and
/// where it lies within, it fails.
pub proof fn lemma_first_failing_fails(entries: Seq<RawEntry>, from: int)
    requires
        0 <= from <= entries.len(),
    ensures
        from <= first_failing(entries, from) <= entries.len(),
        first_failing(entries, from) < entries.len() ==> entry_failure(
            entries[first_failing(entries, from)],
            first_failing(entries, from),
        ) is Some,
    decreases entries.len() - from,
{
    if from < entries.len() && entry_failure(entries[from], from) is None {
        lemma_first_failing_fails(entries, from + 1);
    }
}

/// Every step of an extraction is the step of the entry at its place, whose
/// name holds no `..` segment: its path is the output directory, a separator
/// and that name. So no step is led out of the output directory by a name.
/// An extraction fails exactly where an entry does, and a directory is created
/// exactly for the names that end in a separator.
pub proof fn lemma_steps_stay_below(entries: Seq<RawEntry>, output_dir: Seq<char>, i: int)
    requires
        0 <= i < extraction_of(Some(entries), output_dir).steps.len(),
    ensures
        i < entries.len(),
        entries[i] is Some,
        !has_parent_segment(entries[i].unwrap().0),
        extraction_of(Some(entries), output_dir).steps[i] == step_of(
            output_dir,
            entries[i].unwrap().0,
            entries[i].unwrap().1,
        ),
        extraction_of(Some(entries), output_dir).steps[i] is CreateDir <==> names_directory(
            entries[i].unwrap().0,
        ),
        extraction_of(Some(entries), output_dir).steps[i] is CreateDir ==> extraction_of(
            Some(entries),
            output_dir,
        ).steps[i]->CreateDir_path == joined(output_dir, entries[i].unwrap().0),
        extraction_of(Some(entries), output_dir).steps[i] is WriteFile ==> extraction_of(
            Some(entries),
            output_dir,
        ).steps[i]->WriteFile_path == joined(output_dir, entries[i].unwrap().0)
            && extraction_of(Some(entries), output_dir).steps[i]->data == entries[i].unwrap().1,
        extraction_of(Some(entries), output_dir).failure is None <==> extraction_of(
            Some(entries),
            output_dir,
        ).steps.len() == entries.len(),
{
    lemma_first_failing_fails(entries, 0);
    lemma_entries_before_first_failing(entries, 0, i);
}

/// Reads the archive held in `bytes` and plans its extraction below
/// `output_dir`: one step per entry, in the archive's order. The first entry
/// that cannot be read, or whose name is refused, ends the plan; the steps
/// before it stand, and nothing is planned for the entries after it.
pub fn unzip_file(bytes: Vec<u8>, output_dir: &str) -> (r: Extraction)
    ensures
        r@ == extraction_of(zip_listing(bytes@), output_dir@),
{
    let mut archive = match open_archive(bytes) {
        Ok(archive) => archive,
        Err(_) => {
            let r = Extraction { steps: Vec::new(), failure: Some(ExtractError::Open) };
            assert(r@.steps =~= Seq::empty());
            return r;
        },
    };
    let ghost entries = archive_entries(archive);
    let n = archive_len(&archive);
    let mut steps: Vec<ExtractStep> = Vec::new();
    let mut failure: Option<ExtractError> = None;
    let mut i: usize = 0;
    while i < n && failure.is_none()
        invariant
            archive_entries(archive) == entries,
            n == entries.len(),
            i <= n,
            first_failing(entries, 0) == first_failing(entries, i as int),
            failure is None ==> steps.len() == i,
            failure is Some ==> i < n && steps.len() == i && failure == entry_failure(
                entries[i as int],
                i as int,
            ),
            forall|j: int|
                0 <= j < steps.len() ==> #[trigger] steps@[j]@ == step_of(
                    output_dir@,
                    entries[j].unwrap().0,
                    entries[j].unwrap().1,
                ),
        decreases
            n - i,
            if failure is None { 1int } else { 0int },
    {
        match read_entry(&mut archive, i) {
            None => {
                failure = Some(ExtractError::Entry { index: i });
            },
            Some((name, data)) => {
                match plan_entry(output_dir, i, name.as_str(), data) {
                    Ok(step) => {
                        steps.push(step);
                        i = i + 1;
                    },
                    Err(e) => {
                        failure = Some(e);
                    },
                }
            },
        }
    }
    let r = Extraction { steps, failure };
    assert(r@.steps =~= extraction_of(Some(entries), output_dir@).steps);
    r
}

} // verus!
