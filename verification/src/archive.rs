//! Unpacking a downloaded archive in place.
//!
//! A fetched tool arrives as a zip archive inside its install directory.
//! Unpacking happens where the archive lies: each stored entry becomes a
//! directory or a file under the archive's parent directory, and the
//! archive itself is discarded afterward. The decisions — which path each
//! entry lands at, directory or file, and that the archive is removed last
//! — are made and verified here as a plan of steps; the host carries the
//! steps out on the filesystem.

use vstd::prelude::*;

use crate::app_data::is_archive_file_name;
use crate::pathing::is_separator;
use crate::pathing::join_path;
use crate::pathing::spec_join;
use crate::pathing::tail_after_separator;

verus! {

/// Can these bytes be read as a zip archive at all? Parsing in memory
/// depends on the bytes alone.
pub uninterp spec fn zip_readable(bytes: Seq<u8>) -> bool;

/// How many entries the archive made of these bytes lists.
pub uninterp spec fn zip_entry_count(bytes: Seq<u8>) -> int;

/// The stored name of one entry of the archive made of these bytes.
pub uninterp spec fn zip_entry_name(bytes: Seq<u8>, index: int) -> Seq<char>;

/// The decompressed contents of one entry of the archive made of these
/// bytes.
pub uninterp spec fn zip_entry_data(bytes: Seq<u8>, index: int) -> Seq<u8>;

/// Can the entry at this index of the archive made of these bytes be
/// opened and fully decompressed? An encrypted, unsupported or corrupt
/// entry cannot; which entries can is a function of the bytes alone.
pub uninterp spec fn zip_entry_readable(bytes: Seq<u8>, index: int) -> bool;

/// Relies on zip::ZipArchive::new and ZipArchive::len over an in-memory
/// reader: whether the bytes parse as an archive at all and, if so, how
/// many entries the central directory lists — both functions of the bytes
/// alone.
#[verifier::external_body]
fn archive_entry_count(bytes: &Vec<u8>) -> (r: Option<usize>)
    ensures
        (r is Some) <==> zip_readable(bytes@),
        r matches Some(n) ==> n == zip_entry_count(bytes@),
{
    match zip::ZipArchive::new(std::io::Cursor::new(bytes.as_slice())) {
        Ok(archive) => Some(archive.len()),
        Err(_) => None,
    }
}

/// Relies on zip::ZipArchive::by_index, ZipFile::name and ZipFile's
/// std::io::Read implementation: one entry's stored name and decompressed
/// contents — functions of the bytes and the index alone, given exactly
/// when the archive parses and the entry at this index is readable.
#[verifier::external_body]
fn archive_entry(bytes: &Vec<u8>, index: usize) -> (r: Option<(String, Vec<u8>)>)
    ensures
        (r is Some) <==> (zip_readable(bytes@) && index < zip_entry_count(bytes@)
            && zip_entry_readable(bytes@, index as int)),
        r matches Some(e) ==> e.0@ == zip_entry_name(bytes@, index as int) && e.1@
            == zip_entry_data(bytes@, index as int),
{
    let mut archive = zip::ZipArchive::new(std::io::Cursor::new(bytes.as_slice())).ok()?;
    let mut entry = archive.by_index(index).ok()?;
    let name = entry.name().to_owned();
    let mut data = Vec::new();
    std::io::Read::read_to_end(&mut entry, &mut data).ok()?;
    Some((name, data))
}

/// The directory that contains `p`: everything before the last separator,
/// and empty when `p` has none.
pub open spec fn spec_parent_dir(p: Seq<char>) -> Seq<char> {
    if tail_after_separator(p).len() == p.len() {
        Seq::empty()
    } else {
        p.take(p.len() - tail_after_separator(p).len() - 1)
    }
}

/// The directory that contains this path, as `spec_parent_dir` gives it.
pub fn parent_dir_of(path: &str) -> (r: String)
    ensures
        r@ == spec_parent_dir(path@),
{
    let n = path.unicode_len();
    let mut i: usize = n;
    while i > 0
        invariant
            i <= n,
            n == path@.len(),
            forall|k: int| i <= k < n ==> !is_separator(path@[k]),
        ensures
            i <= n,
            forall|k: int| i <= k < n ==> !is_separator(path@[k]),
            i > 0 ==> is_separator(path@[i - 1]),
        decreases i,
    {
        let c = path.get_char(i - 1);
        if c == '/' || c == '\\' {
            break ;
        }
        i -= 1;
    }
    proof {
        crate::pathing::lemma_tail_is_subrange(path@, i as int);
    }
    if i == 0 {
        proof {
            assert(tail_after_separator(path@) =~= path@);
        }
        String::new()
    } else {
        let parent = path.substring_char(0, i - 1);
        proof {
            assert(tail_after_separator(path@).len() == n - i);
            assert(parent@ =~= spec_parent_dir(path@));
        }
        parent.to_owned()
    }
}

/// One step of an in-place unpack, for the host to carry out.
pub enum ExtractStep {
    /// Create this directory, parents included.
    MakeDir(String),
    /// Write this file with these contents, creating missing parent
    /// directories first.
    WriteFile(String, Vec<u8>),
    /// Remove this file.
    RemoveFile(String),
}

/// The abstract contents of one unpack step.
pub enum StepModel {
    MakeDir(Seq<char>),
    WriteFile(Seq<char>, Seq<u8>),
    RemoveFile(Seq<char>),
}

impl View for ExtractStep {
    type V = StepModel;

    open spec fn view(&self) -> StepModel {
        match self {
            ExtractStep::MakeDir(p) => StepModel::MakeDir(p@),
            ExtractStep::WriteFile(p, d) => StepModel::WriteFile(p@, d@),
            ExtractStep::RemoveFile(p) => StepModel::RemoveFile(p@),
        }
    }
}

/// Does this stored entry name mark a directory? Archives store a single
/// flat list of named entries; the ones whose name ends in `/` are
/// directories.
pub open spec fn spec_is_dir_entry(name: Seq<char>) -> bool {
    name.len() > 0 && name[name.len() - 1] == '/'
}

/// The unpack step one entry calls for: its stored name joined under the
/// archive's parent directory, created as a directory if the name marks
/// one and written as a file with the entry's contents otherwise.
pub open spec fn spec_entry_step(parent: Seq<char>, name: Seq<char>, data: Seq<u8>) -> StepModel {
    if spec_is_dir_entry(name) {
        StepModel::MakeDir(spec_join(parent, name))
    } else {
        StepModel::WriteFile(spec_join(parent, name), data)
    }
}

/// Decide the unpack step for one archive entry: exactly
/// `spec_entry_step`.
pub fn entry_step(parent_dir: &str, entry_name: &str, data: Vec<u8>) -> (r: ExtractStep)
    ensures
        r@ == spec_entry_step(parent_dir@, entry_name@, data@),
{
    let n = entry_name.unicode_len();
    let is_dir = if n > 0 {
        entry_name.get_char(n - 1) == '/'
    } else {
        false
    };
    let outpath = join_path(parent_dir, entry_name);
    if is_dir {
        ExtractStep::MakeDir(outpath)
    } else {
        ExtractStep::WriteFile(outpath, data)
    }
}

/// The whole in-place unpack of a downloaded archive: one step per entry,
/// in the archive's order, then the removal of the archive file itself.
/// Nothing when the bytes cannot be read as a zip archive or one of the
/// entries cannot — and always a plan when the archive and every entry
/// are readable; the host reports a failed unpack for the one tool
/// concerned and leaves the others alone.
#[verifier::loop_isolation(false)]
pub fn unpack_plan(archive_path: &str, bytes: &Vec<u8>) -> (r: Option<Vec<ExtractStep>>)
    ensures
        r matches Some(steps) ==> steps@.len() == zip_entry_count(bytes@) + 1 && (forall|i: int|
            0 <= i < zip_entry_count(bytes@) ==> steps@[i]@ == spec_entry_step(
                spec_parent_dir(archive_path@),
                zip_entry_name(bytes@, i),
                zip_entry_data(bytes@, i),
            )) && steps@[zip_entry_count(bytes@)]@ == StepModel::RemoveFile(archive_path@),
        r is Some ==> zip_readable(bytes@),
        (zip_readable(bytes@) && (forall|i: int|
            0 <= i < zip_entry_count(bytes@) ==> #[trigger] zip_entry_readable(bytes@, i)))
            ==> r is Some,
{
    let count = match archive_entry_count(bytes) {
        Some(c) => c,
        None => {
            return None;
        },
    };
    let parent = parent_dir_of(archive_path);
    let mut steps: Vec<ExtractStep> = Vec::new();
    let mut i: usize = 0;
    while i < count
        invariant
            i <= count,
            steps@.len() == i,
            forall|j: int|
                0 <= j < i ==> steps@[j]@ == spec_entry_step(
                    spec_parent_dir(archive_path@),
                    zip_entry_name(bytes@, j),
                    zip_entry_data(bytes@, j),
                ),
        decreases count - i,
    {
        let entry = match archive_entry(bytes, i) {
            Some(e) => e,
            None => {
                proof {
                    assert(!zip_entry_readable(bytes@, i as int));
                }
                return None;
            },
        };
        let (name, data) = entry;
        steps.push(entry_step(parent.as_str(), name.as_str(), data));
        i += 1;
    }
    steps.push(ExtractStep::RemoveFile(String::from_str(archive_path)));
    Some(steps)
}

/// Downloading and unpacking compose: a planned archive file name holds no
/// separator, so the archive lies directly inside the install directory,
/// and the parent directory `unpack_plan` works under — where every entry
/// lands — is that install directory itself. Stated for an install
/// directory that does not end in a separator; with a trailing separator
/// the two strings differ while naming the same place.
pub proof fn lemma_archive_unpacks_into_install_directory(dir: Seq<char>, name: Seq<char>)
    requires
        is_archive_file_name(name),
        dir.len() > 0 ==> !is_separator(dir[dir.len() - 1]),
    ensures
        spec_parent_dir(spec_join(dir, name)) == dir,
{
    if dir.len() == 0 {
        crate::pathing::lemma_tail_is_subrange(name, 0);
        assert(name.subrange(0, name.len() as int) =~= name);
        assert(spec_parent_dir(spec_join(dir, name)) =~= dir);
    } else {
        let j = spec_join(dir, name);
        assert(j == dir + seq!['/'] + name);
        assert(is_separator(j[dir.len() as int]));
        assert forall|k: int| dir.len() + 1 <= k < j.len() implies !is_separator(j[k]) by {
            assert(j[k] == name[k - dir.len() - 1]);
        }
        crate::pathing::lemma_tail_is_subrange(j, dir.len() as int + 1);
        assert(j.subrange(dir.len() as int + 1, j.len() as int) =~= name);
        assert(tail_after_separator(j).len() == name.len());
        assert(j.take(j.len() as int - name.len() as int - 1) =~= dir);
    }
}

} // verus!
