//! Package archives: which files of a zip archive are the package's
//! resources, and which files a package archive is written with.
use std::io::Read;
use std::io::Write;
use vstd::prelude::*;
use vstd::utf8::{decode_utf8, encode_utf8, valid_utf8};
use crate::resources::{ResourceKey, insert_resource, resource_map, resources_unique};
use crate::text::str_eq;
use crate::v4::atom::{category_of_dir, opt_str};

verus! {

#[verifier::external_type_specification]
#[verifier::external_body]
#[verifier::reject_recursive_types(T)]
pub struct ExCursor<T>(std::io::Cursor<T>);

#[verifier::external_type_specification]
#[verifier::external_body]
#[verifier::reject_recursive_types(R)]
pub struct ExZipArchive<R>(zip::ZipArchive<R>);

#[verifier::external_type_specification]
#[verifier::external_body]
pub struct ExZipError(zip::result::ZipError);

/// Why reading or writing a package archive failed.
#[derive(Debug)]
pub enum ArchiveError {
    /// The zip layer refused the archive, an entry, or a write.
    Zip(zip::result::ZipError),
}

impl From<zip::result::ZipError> for ArchiveError {
    fn from(e: zip::result::ZipError) -> (r: Self) {
        ArchiveError::Zip(e)
    }
}

impl vstd::std_specs::convert::FromSpecImpl<zip::result::ZipError> for ArchiveError {
    open spec fn obeys_from_spec() -> bool {
        true
    }

    open spec fn from_spec(e: zip::result::ZipError) -> Self {
        ArchiveError::Zip(e)
    }
}

/// An archive read from bytes in memory.
pub type MemoryArchive = zip::ZipArchive<std::io::Cursor<Vec<u8>>>;

/// An archive being written into memory (a `zip::ZipWriter` over a
/// `std::io::Cursor`). Verus refuses a declaration of `zip::ZipWriter`,
/// whose bounds name traits of `std::io`, so the writer is held in a field
/// that the proofs do not see; `written_files` names what it holds.
#[verifier::external_body]
pub struct ArchiveWriter {
    inner: zip::ZipWriter<std::io::Cursor<Vec<u8>>>,
}

/// One file (or directory) entry of a zip archive.
pub struct ZipEntry {
    /// The stored name, as `by_name` looks it up.
    pub name: Seq<char>,
    /// Whether the stored name ends with `/` or `\`.
    pub is_dir: bool,
    /// Whether the entry can be opened (its local header is sound).
    pub opens: bool,
    /// Whether the entry can be opened and its contents read to the end.
    pub readable: bool,
    /// The decompressed contents.
    pub data: Seq<u8>,
}

/// Whether `zip::ZipArchive::new` accepts `bytes` as an archive.
pub uninterp spec fn zip_readable(bytes: Seq<u8>) -> bool;

/// What `enclosed_name` followed by `to_str` gives for an entry stored
/// under `name` on a platform whose path separator is `separator`: the
/// components of a safe relative path joined by the separator, or none.
pub uninterp spec fn enclosed_text(name: Seq<char>, separator: char) -> Option<Seq<char>>;

/// The entries, in order, of the zip archive encoded by `bytes`.
pub uninterp spec fn zip_contents(bytes: Seq<u8>) -> Seq<ZipEntry>;

/// The entries, in order, of an opened archive.
pub uninterp spec fn archive_entries(archive: MemoryArchive) -> Seq<ZipEntry>;

/// The files (name and contents), in order, written so far into a writer.
pub uninterp spec fn written_files(writer: ArchiveWriter) -> Seq<(Seq<char>, Seq<u8>)>;

/// Opens a zip archive held in memory (`zip::ZipArchive::new` over a
/// `std::io::Cursor`). The contract states that it succeeds exactly on
/// readable bytes and that the opened archive holds the entries that the
/// bytes encode.
#[verifier::external_body]
fn open_archive(bytes: Vec<u8>) -> (r: Result<MemoryArchive, zip::result::ZipError>)
    ensures
        r is Ok <==> zip_readable(bytes@),
        r is Ok ==> archive_entries(r->Ok_0) == zip_contents(bytes@),
{
    zip::ZipArchive::new(std::io::Cursor::new(bytes))
}

/// The number of entries (`zip::ZipArchive::len`).
#[verifier::external_body]
fn archive_len(archive: &MemoryArchive) -> (r: usize)
    ensures
        r == archive_entries(*archive).len(),
{
    archive.len()
}

/// Whether entry `index` is a directory and its enclosed name, from
/// `zip::ZipArchive::by_index` with `is_dir` and `enclosed_name` (kept when
/// it is valid Unicode). The contract claims: an entry that opens gives a
/// result; the enclosed name is the one for this platform's path separator
/// (`/` or `\`), and a portable name comes back as itself with that
/// separator between its parts. The archive's entries stay the same.
#[verifier::external_body]
fn entry_header(archive: &mut MemoryArchive, index: usize) -> (r: Result<
    (bool, Option<String>),
    zip::result::ZipError,
>)
    requires
        index < archive_entries(*old(archive)).len(),
    ensures
        archive_entries(*final(archive)) == archive_entries(*old(archive)),
        archive_entries(*old(archive))[index as int].opens ==> r is Ok,
        r is Ok ==> r->Ok_0.0 == archive_entries(*old(archive))[index as int].is_dir,
        r is Ok ==> {
            let name = archive_entries(*old(archive))[index as int].name;
            let read = opt_str(r->Ok_0.1);
            ||| read == enclosed_text(name, '/') && (portable_name(name) ==> read == Some(
                with_separator(name, '/'),
            ))
            ||| read == enclosed_text(name, '\\') && (portable_name(name) ==> read == Some(
                with_separator(name, '\\'),
            ))
        },
{
    let file = archive.by_index(index)?;
    let name = file.enclosed_name().and_then(|path| path.to_str().map(|s| s.to_string()));
    Ok((file.is_dir(), name))
}

/// The contents of entry `index`, from `zip::ZipArchive::by_index` and
/// `Read::read_to_end`. The archive's entries stay the same.
#[verifier::external_body]
fn entry_data(archive: &mut MemoryArchive, index: usize) -> (r: Result<Vec<u8>, zip::result::ZipError>)
    requires
        index < archive_entries(*old(archive)).len(),
    ensures
        archive_entries(*final(archive)) == archive_entries(*old(archive)),
        archive_entries(*old(archive))[index as int].readable ==> r is Ok,
        r is Ok ==> r->Ok_0@ == archive_entries(*old(archive))[index as int].data,
{
    let mut file = archive.by_index(index)?;
    let mut data = Vec::new();
    file.read_to_end(&mut data)?;
    Ok(data)
}

/// The text of the entry called `name`, from `zip::ZipArchive::by_name` and
/// `Read::read_to_string`: the contents of an entry with that name, which
/// are valid UTF-8. It succeeds when there is such an entry and every entry
/// of that name is readable with valid UTF-8 contents.
#[verifier::external_body]
fn entry_text(archive: &mut MemoryArchive, name: &str) -> (r: Result<String, zip::result::ZipError>)
    ensures
        archive_entries(*final(archive)) == archive_entries(*old(archive)),
        named_text_readable(archive_entries(*old(archive)), name@) ==> r is Ok,
        r is Ok ==> exists|i: int|
            0 <= i < archive_entries(*old(archive)).len() && #[trigger] archive_entries(
                *old(archive),
            )[i].name == name@ && valid_utf8(archive_entries(*old(archive))[i].data) && r->Ok_0@
                == decode_utf8(archive_entries(*old(archive))[i].data),
{
    let mut file = archive.by_name(name)?;
    let mut text = String::new();
    file.read_to_string(&mut text)?;
    Ok(text)
}

/// A new writer into memory (`zip::ZipWriter::new` over a `std::io::Cursor`).
#[verifier::external_body]
fn new_writer() -> (r: ArchiveWriter)
    ensures
        written_files(r) == Seq::<(Seq<char>, Seq<u8>)>::empty(),
{
    ArchiveWriter { inner: zip::ZipWriter::new(std::io::Cursor::new(Vec::new())) }
}

/// Starts a new file (`zip::ZipWriter::start_file`) with default options
/// and Deflate compression. When it succeeds the writer holds one more,
/// still empty, file. On a writer into memory it fails only for a name
/// already written or a name too long for a zip header, so a new name of at
/// most 16000 characters (64000 bytes) is accepted.
#[verifier::external_body]
fn start_file(writer: &mut ArchiveWriter, name: &str) -> (r: Result<(), zip::result::ZipError>)
    ensures
        name@.len() <= 16000 && (forall|j: int|
            0 <= j < written_files(*old(writer)).len() ==> #[trigger] written_files(
                *old(writer),
            )[j].0 != name@) ==> r is Ok,
        r is Ok ==> written_files(*final(writer)) == written_files(*old(writer)).push(
            (name@, Seq::<u8>::empty()),
        ),
{
    writer.inner.start_file(
        name,
        zip::write::SimpleFileOptions::default().compression_method(
            zip::CompressionMethod::Deflated,
        ),
    )
}

/// Appends bytes to the file being written (`Write::write_all`). When it
/// succeeds the last file's contents are extended by `data`. On a writer
/// into memory it fails only when a file reaches 4 GiB without the large
/// file option, so a file that stays under 2 GiB is accepted.
#[verifier::external_body]
fn write_data(writer: &mut ArchiveWriter, data: &[u8]) -> (r: Result<(), zip::result::ZipError>)
    requires
        written_files(*old(writer)).len() > 0,
    ensures
        written_files(*old(writer)).last().1.len() + data@.len() < 0x8000_0000 ==> r is Ok,
        r is Ok ==> written_files(*final(writer)) == written_files(*old(writer)).update(
            written_files(*old(writer)).len() - 1,
            (
                written_files(*old(writer)).last().0,
                written_files(*old(writer)).last().1 + data@,
            ),
        ),
{
    writer.inner.write_all(data)?;
    Ok(())
}

/// Writes the central directory and returns the archive's bytes
/// (`zip::ZipWriter::finish`, then `Cursor::into_inner`). On a writer into
/// memory it fails only by an I/O error, which a `Cursor` over a `Vec` does
/// not raise. The contract claims that the bytes are a readable archive
/// whose entries are the written files, in order, under their names, with
/// their contents, opening and readable, and files (not directories) where the name is
/// portable. The bytes themselves (headers, compressed data) are left
/// unstated.
#[verifier::external_body]
fn finish_writer(writer: ArchiveWriter) -> (r: Result<Vec<u8>, zip::result::ZipError>)
    ensures
        r is Ok,
        r is Ok ==> written_entries(r->Ok_0@, written_files(writer)),
{
    Ok(writer.inner.finish()?.into_inner())
}

/// A resource handle that a file name in an archive can denote, and that
/// names the file it is stored in.
pub trait ArchiveKey: ResourceKey {
    /// The handle that an archive file called `name` denotes, if any.
    spec fn spec_from_file_name(name: Seq<char>) -> Option<<Self as View>::V>;

    /// The name of the archive file that stores the resource.
    spec fn spec_file_name(key: <Self as View>::V) -> Seq<char>;

    fn from_file_name(name: &str) -> (r: Option<Self>)
        ensures
            r is Some <==> Self::spec_from_file_name(name@) is Some,
            r is Some ==> r->0@ == Self::spec_from_file_name(name@)->0,
    ;

    fn file_name(&self) -> (r: &str)
        ensures
            r@ == Self::spec_file_name(self@),
    ;
}

/// A character that no platform refuses in a file name: neither a control
/// character nor one of `/`, `\`, `<`, `>`, `:`, `"`, `|`, `?`, `*`.
pub open spec fn portable_char(c: char) -> bool {
    &&& c as u32 >= 0x20
    &&& c as u32 != 0x7f
    &&& c != '/' && c != '\\' && c != '<' && c != '>' && c != ':'
    &&& c != '"' && c != '|' && c != '?' && c != '*'
}

/// `c` with an ASCII upper-case letter written in lower case.
pub open spec fn ascii_lower(c: char) -> char {
    if 'A' <= c && c <= 'Z' {
        ((c as u32) + 32) as char
    } else {
        c
    }
}

/// Whether `base` starts, ignoring ASCII case, like a Windows device name:
/// with `con`, `prn`, `aux`, `nul`, `com`, `lpt` or `clo` (every device
/// name, `CON`, `CONIN$`, `COM1`, `CLOCK$` and the others, starts so).
pub open spec fn device_like(base: Seq<char>) -> bool {
    base.len() >= 3 && {
        let p = seq![ascii_lower(base[0]), ascii_lower(base[1]), ascii_lower(base[2])];
        p == seq!['c', 'o', 'n'] || p == seq!['p', 'r', 'n'] || p == seq!['a', 'u', 'x']
            || p == seq!['n', 'u', 'l'] || p == seq!['c', 'o', 'm'] || p == seq!['l', 'p', 't']
            || p == seq!['c', 'l', 'o']
    }
}

/// A resource file name that reads back unchanged on every platform:
/// `folder/base`, where the folder is one of the resource folders and the
/// base has at most 127 portable characters, does not start like a device
/// name and ends with neither a dot nor a space.
pub open spec fn portable_resource_name(name: Seq<char>) -> bool {
    exists|dir: Seq<char>, base: Seq<char>|
        #![trigger category_of_dir(dir), base.last()]
        category_of_dir(dir) is Some && name == dir + seq!['/'] + base && 1 <= base.len()
            <= 127 && !device_like(base) && base.last() != '.' && base.last() != ' '
            && forall|j: int| 0 <= j < base.len() ==> portable_char(#[trigger] base[j])
}

/// A file name that reads back unchanged on every platform: one of the two
/// content files, or a portable resource name.
pub open spec fn portable_name(name: Seq<char>) -> bool {
    name == content_file() || name == content_types_file() || portable_resource_name(name)
}

/// `s` with every `/` written as `separator`.
pub open spec fn with_separator(s: Seq<char>, separator: char) -> Seq<char> {
    s.map_values(|c: char| if c == '/' { separator } else { c })
}

/// `read` is what an entry stored under `name` gives as its enclosed name
/// on a platform whose path separator is `separator`: a portable name
/// comes back with that separator between its parts.
pub open spec fn name_as_read(name: Seq<char>, read: Option<Seq<char>>, separator: char) -> bool {
    &&& read == enclosed_text(name, separator)
    &&& portable_name(name) ==> read == Some(with_separator(name, separator))
}

/// The names of the written files are pairwise different, none longer
/// than 16000 characters, and every file's contents are under 2 GiB.
pub open spec fn writable_files(files: Seq<(Seq<char>, Seq<u8>)>) -> bool {
    &&& forall|i: int, j: int|
        0 <= i < j < files.len() ==> (#[trigger] files[i]).0 != (#[trigger] files[j]).0
    &&& forall|i: int|
        0 <= i < files.len() ==> (#[trigger] files[i]).0.len() <= 16000 && files[i].1.len()
            < 0x8000_0000
}

/// Reading the archive `bytes` gives back `files` in order: the bytes are
/// a readable archive, each entry has the file's name and contents, opens
/// and can be read to the end, and an entry with a portable name is a file.
pub open spec fn written_entries(bytes: Seq<u8>, files: Seq<(Seq<char>, Seq<u8>)>) -> bool {
    let entries = zip_contents(bytes);
    &&& zip_readable(bytes)
    &&& entries.len() == files.len()
    &&& forall|i: int|
        0 <= i < files.len() ==> {
            &&& (#[trigger] entries[i]).name == files[i].0
            &&& entries[i].data == files[i].1
            &&& entries[i].opens
            &&& entries[i].readable
            &&& portable_name(files[i].0) ==> !entries[i].is_dir
        }
}

/// There is an entry called `name`, and every entry of that name is
/// readable with valid UTF-8 contents.
pub open spec fn named_text_readable(entries: Seq<ZipEntry>, name: Seq<char>) -> bool {
    &&& exists|i: int| 0 <= i < entries.len() && (#[trigger] entries[i]).name == name
    &&& forall|i: int|
        0 <= i < entries.len() && (#[trigger] entries[i]).name == name ==> entries[i].readable
            && valid_utf8(entries[i].data)
}

/// Whether an archive entry holds a resource, read on a platform whose
/// path separator is `/` or on one whose separator is `\`.
pub open spec fn holds_resource<K: ArchiveKey>(e: ZipEntry) -> bool {
    spec_entry_resource::<K>(e.is_dir, enclosed_text(e.name, '/')) is Some
        || spec_entry_resource::<K>(e.is_dir, enclosed_text(e.name, '\\')) is Some
}

/// A package archive that reading succeeds on: readable bytes whose
/// entries all open, whose resource entries can be read to the end, with a
/// `content.xml` in valid UTF-8.
pub open spec fn archive_readable<K: ArchiveKey>(bytes: Seq<u8>) -> bool {
    &&& zip_readable(bytes)
    &&& forall|i: int| 0 <= i < zip_contents(bytes).len() ==> (#[trigger] zip_contents(bytes)[i]).opens
    &&& forall|i: int|
        0 <= i < zip_contents(bytes).len() && holds_resource::<K>(#[trigger] zip_contents(bytes)[i])
            ==> zip_contents(bytes)[i].readable
    &&& named_text_readable(zip_contents(bytes), content_file())
}

/// `content.xml`
pub open spec fn content_file() -> Seq<char> {
    "content.xml"@
}

/// `[Content_Types].xml`
pub open spec fn content_types_file() -> Seq<char> {
    "[Content_Types].xml"@
}

/// The XML declaration that starts `content.xml`.
pub open spec fn xml_declaration() -> Seq<char> {
    "<?xml version=\"1.0\" encoding=\"utf-8\"?>"@
}

/// The contents of `[Content_Types].xml`.
pub open spec fn content_types() -> Seq<char> {
    "<?xml version=\"1.0\" encoding=\"utf-8\"?><Types xmlns=\"http://schemas.openxmlformats.org/package/2006/content-types\"><Default Extension=\"xml\" ContentType=\"si/xml\" /></Types>\"\""@
}

/// The handle of the resource that an archive entry holds, given whether
/// it is a directory and its enclosed name as read: a file whose name is
/// neither of the two content files and denotes a handle.
pub open spec fn spec_entry_resource<K: ArchiveKey>(
    is_dir: bool,
    name: Option<Seq<char>>,
) -> Option<<K as View>::V> {
    if !is_dir && name is Some && name->0 != content_file() && name->0 != content_types_file() {
        K::spec_from_file_name(name->0)
    } else {
        None
    }
}

/// The handle of the resource held by an archive entry with the given
/// directory flag and enclosed name (as the platform gives it): none for a
/// directory, for an entry without a usable name, for `content.xml` and
/// `[Content_Types].xml`, and for a name that denotes no handle.
pub fn entry_resource<K: ArchiveKey>(is_dir: bool, enclosed_name: Option<String>) -> (r: Option<K>)
    ensures
        r is Some <==> spec_entry_resource::<K>(is_dir, opt_str(enclosed_name)) is Some,
        r is Some ==> r->0@ == spec_entry_resource::<K>(is_dir, opt_str(enclosed_name))->0,
{
    proof {
        reveal_strlit("content.xml");
        reveal_strlit("[Content_Types].xml");
    }
    if is_dir {
        return None;
    }
    match enclosed_name {
        Some(filename) => {
            if str_eq(filename.as_str(), "content.xml") || str_eq(
                filename.as_str(),
                "[Content_Types].xml",
            ) {
                None
            } else {
                K::from_file_name(filename.as_str())
            }
        },
        None => None,
    }
}

/// The resources that loading the archive entries collects, where
/// `names` holds the enclosed name of each entry as read: each resource
/// entry under its handle, a later entry replacing an earlier one.
pub open spec fn loaded_resources<K: ArchiveKey>(
    entries: Seq<ZipEntry>,
    names: Seq<Option<Seq<char>>>,
) -> Map<<K as View>::V, Seq<u8>>
    decreases entries.len(),
{
    if entries.len() == 0 {
        Map::empty()
    } else {
        let rest = loaded_resources::<K>(entries.drop_last(), names.drop_last());
        match spec_entry_resource::<K>(entries.last().is_dir, names.last()) {
            Some(k) => rest.insert(k, entries.last().data),
            None => rest,
        }
    }
}

/// `names` are enclosed names that reading `entries` can give: for each
/// entry, its enclosed name on a platform with `/` or with `\` as path
/// separator.
pub open spec fn names_as_read(entries: Seq<ZipEntry>, names: Seq<Option<Seq<char>>>) -> bool {
    &&& names.len() == entries.len()
    &&& forall|i: int|
        0 <= i < entries.len() ==> name_as_read(entries[i].name, #[trigger] names[i], '/')
            || name_as_read(entries[i].name, names[i], '\\')
}

/// `names` are the enclosed names that reading the archive `bytes` gives
/// on a platform whose path separator is `/`, and `resources` holds, as a
/// map, the resources that the entries hold under these names.
pub open spec fn read_with_slash<K: ArchiveKey>(
    bytes: Seq<u8>,
    resources: Seq<(K, Vec<u8>)>,
    names: Seq<Option<Seq<char>>>,
) -> bool {
    &&& names.len() == zip_contents(bytes).len()
    &&& forall|i: int|
        0 <= i < names.len() ==> name_as_read(zip_contents(bytes)[i].name, #[trigger] names[i], '/')
    &&& resource_map(resources) == loaded_resources::<K>(zip_contents(bytes), names)
}

/// The files of a package archive: `content.xml` (the XML declaration
/// followed by `xml`), `[Content_Types].xml`, then every resource in order.
pub open spec fn archive_files<K: ArchiveKey>(xml: Seq<char>, resources: Seq<(K, Vec<u8>)>) -> Seq<
    (Seq<char>, Seq<u8>),
> {
    seq![
        (content_file(), encode_utf8(xml_declaration()) + encode_utf8(xml)),
        (content_types_file(), encode_utf8(content_types())),
    ] + resources.map_values(|e: (K, Vec<u8>)| (K::spec_file_name(e.0@), e.1@))
}

/// `text` and `resources` are what reading the archive `bytes` gives: the
/// text of an entry called `content.xml`, whose contents are valid UTF-8,
/// and, as a map, the resources that the entries hold under their enclosed
/// names as read.
pub open spec fn archive_read<K: ArchiveKey>(
    bytes: Seq<u8>,
    text: Seq<char>,
    resources: Seq<(K, Vec<u8>)>,
) -> bool {
    let entries = zip_contents(bytes);
    &&& exists|names: Seq<Option<Seq<char>>>|
        names_as_read(entries, names) && resource_map(resources) == #[trigger] loaded_resources::<
            K,
        >(entries, names)
    &&& exists|i: int|
        0 <= i < entries.len() && (#[trigger] entries[i]).name == content_file() && valid_utf8(
            entries[i].data,
        ) && text == decode_utf8(entries[i].data)
}

/// `bytes` is an archive whose entries are the files of a package archive
/// with content `xml` and the resources.
pub open spec fn archive_written<K: ArchiveKey>(
    bytes: Seq<u8>,
    xml: Seq<char>,
    resources: Seq<(K, Vec<u8>)>,
) -> bool {
    written_entries(bytes, archive_files::<K>(xml, resources))
}

/// Reads a package archive: the text of `content.xml` and the resources.
/// It fails on bytes that are no zip archive, and succeeds on every
/// readable package archive.
pub fn read_archive<K: ArchiveKey>(bytes: Vec<u8>) -> (r: Result<
    (String, Vec<(K, Vec<u8>)>),
    ArchiveError,
>)
    ensures
        archive_readable::<K>(bytes@) ==> r is Ok,
        r is Ok ==> zip_readable(bytes@),
        r is Ok ==> resources_unique(r->Ok_0.1@),
        r is Ok ==> archive_read::<K>(bytes@, r->Ok_0.0@, r->Ok_0.1@),
{
    let ghost input = bytes@;
    let ghost contents = zip_contents(input);
    let ghost readable = archive_readable::<K>(input);
    let mut archive = open_archive(bytes)?;
    let mut resources: Vec<(K, Vec<u8>)> = Vec::new();
    let n = archive_len(&archive);
    let mut i: usize = 0;
    let ghost mut names: Seq<Option<Seq<char>>> = Seq::empty();
    while i < n
        invariant
            n == contents.len(),
            i <= n,
            contents == zip_contents(input),
            input == bytes@,
            zip_readable(input),
            readable == archive_readable::<K>(input),
            archive_entries(archive) == contents,
            readable ==> forall|j: int| 0 <= j < contents.len() ==> (#[trigger] contents[j]).opens,
            readable ==> forall|j: int|
                0 <= j < contents.len() && holds_resource::<K>(#[trigger] contents[j])
                    ==> contents[j].readable,
            resources_unique(resources@),
            names_as_read(contents.take(i as int), names),
            resource_map(resources@) == loaded_resources::<K>(contents.take(i as int), names),
        decreases n - i,
    {
        let ghost before = names;
        proof {
            assert(contents.take(i + 1).drop_last() =~= contents.take(i as int));
            assert(contents.take(i + 1).last() == contents[i as int]);
            if readable {
                assert(contents[i as int].opens);
            }
        }
        let (is_dir, name) = entry_header(&mut archive, i)?;
        proof {
            let e = contents[i as int];
            names = before.push(opt_str(name));
            assert(names.drop_last() =~= before);
            assert forall|j: int| 0 <= j < i + 1 implies name_as_read(
                contents.take(i + 1)[j].name,
                #[trigger] names[j],
                '/',
            ) || name_as_read(contents.take(i + 1)[j].name, names[j], '\\') by {
                if j < i {
                    assert(names[j] == before[j]);
                    assert(contents.take(i + 1)[j] == contents.take(i as int)[j]);
                } else {
                    assert(contents.take(i + 1)[j] == e);
                }
            }
        }
        match entry_resource::<K>(is_dir, name) {
            Some(key) => {
                proof {
                    if readable {
                        assert(holds_resource::<K>(contents[i as int]));
                    }
                }
                let value = entry_data(&mut archive, i)?;
                insert_resource(&mut resources, key, value);
            },
            None => {},
        }
        i = i + 1;
    }
    proof {
        assert(contents.take(n as int) =~= contents);
    }
    let text = entry_text(&mut archive, "content.xml")?;
    Ok((text, resources))
}

/// Writes the files of a package archive into a new writer; it succeeds
/// when the files are writable.
fn fill_archive<K: ArchiveKey>(xml: &str, resources: &Vec<(K, Vec<u8>)>) -> (r: Result<
    ArchiveWriter,
    zip::result::ZipError,
>)
    ensures
        writable_files(archive_files::<K>(xml@, resources@)) ==> r is Ok,
        r is Ok ==> written_files(r->Ok_0) == archive_files::<K>(xml@, resources@),
{
    let ghost files = archive_files::<K>(xml@, resources@);
    let ghost writable = writable_files(files);
    let declaration = "<?xml version=\"1.0\" encoding=\"utf-8\"?>";
    let types = "<?xml version=\"1.0\" encoding=\"utf-8\"?><Types xmlns=\"http://schemas.openxmlformats.org/package/2006/content-types\"><Default Extension=\"xml\" ContentType=\"si/xml\" /></Types>\"\"";
    proof {
        reveal_strlit("content.xml");
        reveal_strlit("[Content_Types].xml");
        if writable {
            assert(files[0].0 == content_file());
            assert(files[1].0 == content_types_file());
            assert(files[0].1.len() < 0x8000_0000);
            assert(files[1].1.len() < 0x8000_0000);
        }
    }
    let mut writer = new_writer();
    start_file(&mut writer, "content.xml")?;
    write_data(&mut writer, declaration.as_bytes())?;
    write_data(&mut writer, xml.as_bytes())?;
    proof {
        if writable {
            assert(files[0].0 != files[1].0);
        }
    }
    start_file(&mut writer, "[Content_Types].xml")?;
    write_data(&mut writer, types.as_bytes())?;
    proof {
        assert(written_files(writer) =~= files.take(2));
    }
    let mut i: usize = 0;
    while i < resources.len()
        invariant
            i <= resources@.len(),
            files == archive_files::<K>(xml@, resources@),
            writable == writable_files(files),
            written_files(writer) == files.take(i + 2),
        decreases resources@.len() - i,
    {
        let entry = &resources[i];
        proof {
            assert(files[i + 2] == (K::spec_file_name(entry.0@), entry.1@));
            if writable {
                assert(files[i + 2].0.len() <= 16000);
                assert(files[i + 2].1.len() < 0x8000_0000);
                assert forall|j: int| 0 <= j < written_files(writer).len() implies #[trigger] written_files(
                    writer,
                )[j].0 != K::spec_file_name(entry.0@) by {
                    assert(written_files(writer)[j] == files[j]);
                    assert(files[j].0 != files[i + 2].0);
                }
            }
        }
        start_file(&mut writer, entry.0.file_name())?;
        write_data(&mut writer, entry.1.as_slice())?;
        proof {
            assert(written_files(writer) =~= files.take(i + 3));
        }
        i = i + 1;
    }
    proof {
        assert(files.take(resources@.len() as int + 2) =~= files);
    }
    Ok(writer)
}

/// The bytes of a package archive with `xml` as content and the resources:
/// `content.xml` (the XML declaration followed by `xml`),
/// `[Content_Types].xml`, then each resource under its file name. It
/// succeeds when these files are writable: names pairwise different (no
/// resource under the name of a content file or of another resource), none
/// longer than 16000 characters, and contents under 2 GiB each.
pub fn write_archive<K: ArchiveKey>(xml: &str, resources: &Vec<(K, Vec<u8>)>) -> (r: Result<
    Vec<u8>,
    ArchiveError,
>)
    ensures
        writable_files(archive_files::<K>(xml@, resources@)) ==> r is Ok,
        r is Ok ==> archive_written::<K>(r->Ok_0@, xml@, resources@),
{
    let writer = fill_archive(xml, resources)?;
    let bytes = finish_writer(writer)?;
    Ok(bytes)
}

/// UTF-8 encoding distributes over concatenation.
proof fn lemma_encode_utf8_concat(a: Seq<char>, b: Seq<char>)
    ensures
        encode_utf8(a + b) == encode_utf8(a) + encode_utf8(b),
    decreases a.len(),
{
    if a.len() == 0 {
        assert(a + b =~= b);
        assert(encode_utf8(a) + encode_utf8(b) =~= encode_utf8(b));
    } else {
        assert((a + b).drop_first() =~= a.drop_first() + b);
        assert((a + b)[0] == a[0]);
        lemma_encode_utf8_concat(a.drop_first(), b);
        assert(encode_utf8(a + b) =~= encode_utf8(a) + encode_utf8(b));
    }
}

/// No `/` occurs in the names of the two content files.
proof fn lemma_content_names_have_no_slash()
    ensures
        forall|k: int| 0 <= k < content_file().len() ==> content_file()[k] != '/',
        forall|k: int| 0 <= k < content_types_file().len() ==> content_types_file()[k] != '/',
        content_file() != content_types_file(),
{
    reveal_strlit("content.xml");
    reveal_strlit("[Content_Types].xml");
    assert(content_file().len() != content_types_file().len());
}

/// A portable resource name is neither of the two content files.
pub proof fn lemma_resource_name_is_not_content(name: Seq<char>)
    requires
        portable_resource_name(name),
    ensures
        name != content_file(),
        name != content_types_file(),
{
    lemma_content_names_have_no_slash();
    let (dir, base) = choose|dir: Seq<char>, base: Seq<char>|
        #![trigger category_of_dir(dir), base.last()]
        category_of_dir(dir) is Some && name == dir + seq!['/'] + base && 1 <= base.len()
            <= 127 && !device_like(base) && base.last() != '.' && base.last() != ' '
            && forall|j: int| 0 <= j < base.len() ==> portable_char(#[trigger] base[j]);
    assert(name[dir.len() as int] == '/');
}

/// Writing `/` as `/` leaves a name as it is.
proof fn lemma_slash_separator(s: Seq<char>)
    ensures
        with_separator(s, '/') == s,
{
    assert(with_separator(s, '/') =~= s);
}

/// Loading the entries of a written package archive, up to its `n`-th
/// resource, collects the first `n` resources.
proof fn lemma_loaded_prefix<K: ArchiveKey>(
    bytes: Seq<u8>,
    names: Seq<Option<Seq<char>>>,
    xml: Seq<char>,
    resources: Seq<(K, Vec<u8>)>,
    n: int,
)
    requires
        written_entries(bytes, archive_files::<K>(xml, resources)),
        names.len() == zip_contents(bytes).len(),
        forall|i: int|
            0 <= i < names.len() ==> name_as_read(zip_contents(bytes)[i].name, #[trigger] names[i], '/'),
        0 <= n <= resources.len(),
        forall|i: int|
            0 <= i < resources.len() ==> portable_resource_name(
                K::spec_file_name(#[trigger] resources[i].0@),
            ) && K::spec_from_file_name(K::spec_file_name(resources[i].0@)) == Some(
                resources[i].0@,
            ),
    ensures
        loaded_resources::<K>(zip_contents(bytes).take(n + 2), names.take(n + 2)) == resource_map(
            resources.take(n),
        ),
    decreases n,
{
    let entries = zip_contents(bytes);
    let files = archive_files::<K>(xml, resources);
    lemma_content_names_have_no_slash();
    if n == 0 {
        reveal_strlit("content.xml");
        reveal_strlit("[Content_Types].xml");
        assert(files[0].0 == content_file());
        assert(files[1].0 == content_types_file());
        let e0 = entries[0];
        let e1 = entries[1];
        lemma_slash_separator(e0.name);
        lemma_slash_separator(e1.name);
        assert(names[0] == Some(e0.name));
        assert(names[1] == Some(e1.name));
        assert(entries.take(2).drop_last() =~= entries.take(1));
        assert(entries.take(1).drop_last() =~= entries.take(0));
        assert(names.take(2).drop_last() =~= names.take(1));
        assert(names.take(1).drop_last() =~= names.take(0));
        assert(entries.take(2).last() == e1);
        assert(entries.take(1).last() == e0);
        assert(names.take(2).last() == names[1]);
        assert(names.take(1).last() == names[0]);
        assert(spec_entry_resource::<K>(e0.is_dir, names[0]) is None);
        assert(spec_entry_resource::<K>(e1.is_dir, names[1]) is None);
        assert(loaded_resources::<K>(entries.take(0), names.take(0)) =~= Map::empty());
        assert(loaded_resources::<K>(entries.take(1), names.take(1)) =~= Map::empty());
        assert(loaded_resources::<K>(entries.take(2), names.take(2)) =~= Map::empty());
        assert(resources.take(0) =~= Seq::<(K, Vec<u8>)>::empty());
        assert(resource_map(resources.take(0)) =~= Map::empty());
    } else {
        lemma_loaded_prefix(bytes, names, xml, resources, n - 1);
        let k = resources[n - 1].0;
        let name = K::spec_file_name(k@);
        assert(files[n + 1] == (name, resources[n - 1].1@));
        lemma_resource_name_is_not_content(name);
        let e = entries[n + 1];
        assert(portable_name(name));
        lemma_slash_separator(name);
        assert(names[n + 1] == Some(name));
        assert(!e.is_dir);
        assert(entries.take(n + 2).drop_last() =~= entries.take(n + 1));
        assert(names.take(n + 2).drop_last() =~= names.take(n + 1));
        assert(entries.take(n + 2).last() == e);
        assert(names.take(n + 2).last() == names[n + 1]);
        assert(spec_entry_resource::<K>(e.is_dir, names[n + 1]) == Some(k@));
        assert(resources.take(n).drop_last() =~= resources.take(n - 1));
        assert(resources.take(n).last() == resources[n - 1]);
        assert(e.data == resources[n - 1].1@);
        assert(loaded_resources::<K>(entries.take(n + 2), names.take(n + 2)) == loaded_resources::<
            K,
        >(entries.take(n + 1), names.take(n + 1)).insert(k@, e.data));
        assert(resource_map(resources.take(n)) == resource_map(resources.take(n - 1)).insert(
            k@,
            resources[n - 1].1@,
        ));
    }
}

/// A written package archive reads back: the bytes are a readable archive,
/// every entry opens and can be read to the end, and its `content.xml` is
/// valid UTF-8 (so reading it succeeds), when no resource is stored under
/// the name of a content file.
pub proof fn law_written_archive_is_readable<K: ArchiveKey>(
    xml: Seq<char>,
    resources: Seq<(K, Vec<u8>)>,
    bytes: Seq<u8>,
)
    requires
        forall|i: int|
            0 <= i < resources.len() ==> K::spec_file_name(#[trigger] resources[i].0@)
                != content_file(),
        archive_written::<K>(bytes, xml, resources),
    ensures
        archive_readable::<K>(bytes),
{
    let entries = zip_contents(bytes);
    let files = archive_files::<K>(xml, resources);
    reveal_strlit("content.xml");
    reveal_strlit("[Content_Types].xml");
    lemma_content_names_have_no_slash();
    assert(files[0].0 == content_file());
    assert(entries[0].name == content_file());
    assert forall|i: int| 0 <= i < entries.len() && (#[trigger] entries[i]).name == content_file()
        implies entries[i].readable && valid_utf8(entries[i].data) by {
        if i == 1 {
            assert(files[1].0 == content_types_file());
        } else if i >= 2 {
            assert(files[i].0 == K::spec_file_name(resources[i - 2].0@));
        }
        assert(i == 0);
        lemma_encode_utf8_concat(xml_declaration(), xml);
        vstd::utf8::encode_utf8_valid_utf8(xml_declaration() + xml);
    }
}

/// Reading back a written package archive gives the XML declaration
/// followed by the content that was written, and the same resources, when
/// each resource is stored under a portable name that denotes it again and
/// the archive is read on a platform whose path separator is `/`.
pub proof fn law_read_after_write<K: ArchiveKey>(
    xml: Seq<char>,
    resources: Seq<(K, Vec<u8>)>,
    bytes: Seq<u8>,
    text: Seq<char>,
    read: Seq<(K, Vec<u8>)>,
    names: Seq<Option<Seq<char>>>,
)
    requires
        forall|i: int|
            0 <= i < resources.len() ==> portable_resource_name(
                K::spec_file_name(#[trigger] resources[i].0@),
            ) && K::spec_from_file_name(K::spec_file_name(resources[i].0@)) == Some(
                resources[i].0@,
            ),
        archive_written::<K>(bytes, xml, resources),
        archive_read::<K>(bytes, text, read),
        read_with_slash::<K>(bytes, read, names),
    ensures
        text == xml_declaration() + xml,
        resource_map(read) == resource_map(resources),
{
    let entries = zip_contents(bytes);
    let files = archive_files::<K>(xml, resources);
    lemma_loaded_prefix(bytes, names, xml, resources, resources.len() as int);
    assert(entries.take(resources.len() as int + 2) =~= entries);
    assert(names.take(resources.len() as int + 2) =~= names);
    assert(resources.take(resources.len() as int) =~= resources);
    lemma_content_names_have_no_slash();
    let i = choose|i: int|
        0 <= i < entries.len() && (#[trigger] entries[i]).name == content_file() && valid_utf8(
            entries[i].data,
        ) && text == decode_utf8(entries[i].data);
    if i == 1 {
        assert(files[1].0 == content_types_file());
    } else if i >= 2 {
        assert(files[i].0 == K::spec_file_name(resources[i - 2].0@));
        lemma_resource_name_is_not_content(K::spec_file_name(resources[i - 2].0@));
    }
    assert(i == 0);
    lemma_encode_utf8_concat(xml_declaration(), xml);
    vstd::utf8::encode_utf8_decode_utf8(xml_declaration() + xml);
}

} // verus!
