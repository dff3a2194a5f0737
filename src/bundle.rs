//! One zip archive holding a hub's text bin and every file of the hub.
use crate::error::AppError;
use crate::hub::{files_view, FileInfo, FileView, Hub};
use crate::hub::EditView;
use crate::keys::{blob_key, blob_key_of, hub_key_of};
use crate::store::{mutate_in_store, stored_record, StoreModel};
use std::io::Cursor;
use vstd::prelude::*;
use vstd::string::StringSliceAdditionalSpecFns;
use vstd::utf8::encode_utf8;
use zip::result::ZipError;
use zip::ZipWriter;

verus! {

/// A zip archive under construction in an in-memory buffer.
#[verifier::external_body]
pub struct ArchiveWriter {
    inner: ZipWriter<Cursor<Vec<u8>>>,
}

#[verifier::external_type_specification]
#[verifier::external_body]
pub struct ExZipError(ZipError);

#[verifier::external_type_specification]
#[verifier::external_body]
pub struct ExIoError(std::io::Error);

/// Longest entry name, in UTF-8 bytes, that a zip header can record.
pub const MAX_ENTRY_NAME_BYTES: usize = 65535;

/// Largest entry content taken into an archive: 2 GiB, so that even
/// incompressible content stays below the 4 GiB limit of an entry without
/// zip64 records, compressed or not.
pub const MAX_ENTRY_BYTES: usize = 2147483648;

/// The entries of an archive under construction: names and contents, in the
/// order they were started.
pub uninterp spec fn zip_entries(w: ArchiveWriter) -> Seq<(Seq<char>, Seq<u8>)>;

/// Whether the last entry of an archive under construction is still open
/// for writing.
pub uninterp spec fn zip_open(w: ArchiveWriter) -> bool;

/// The bytes that finishing an archive under construction yields.
pub uninterp spec fn zip_archive(w: ArchiveWriter) -> Seq<u8>;

/// The last entry, if any, holds at most [`MAX_ENTRY_BYTES`].
pub open spec fn last_fits(es: Seq<(Seq<char>, Seq<u8>)>) -> bool {
    es.len() == 0 || es.last().1.len() <= MAX_ENTRY_BYTES
}

/// Relies on `zip::ZipWriter::new`: a new writer holds no entries and has
/// none open.
#[verifier::external_body]
fn new_archive() -> (w: ArchiveWriter)
    ensures
        zip_entries(w) == Seq::<(Seq<char>, Seq<u8>)>::empty(),
        !zip_open(w),
{
    ArchiveWriter { inner: ZipWriter::new(Cursor::new(Vec::new())) }
}

/// Relies on `zip::ZipWriter::start_file` with default options. It closes
/// the open entry, which fails only when that entry's compressed size passes
/// 4 GiB, then refuses a name already in the archive; writes to the
/// in-memory buffer do not fail. On success a new, empty, open entry of that
/// name follows the others. A name longer than 65535 bytes would panic when
/// its header is written.
#[verifier::external_body]
fn start_entry(w: &mut ArchiveWriter, name: &str) -> (r: Result<(), ZipError>)
    requires
        name.spec_bytes().len() <= MAX_ENTRY_NAME_BYTES,
    ensures
        r is Ok ==> zip_entries(*final(w)) == zip_entries(*old(w)).push((name@, Seq::<u8>::empty())),
        r is Ok ==> zip_open(*final(w)),
        (exists|i: int| 0 <= i < zip_entries(*old(w)).len() && #[trigger] zip_entries(*old(w))[i].0 == name@)
            ==> r is Err,
        (forall|i: int| 0 <= i < zip_entries(*old(w)).len() ==> #[trigger] zip_entries(*old(w))[i].0 != name@)
            && last_fits(zip_entries(*old(w))) ==> r is Ok,
{
    w.inner.start_file(name, zip::write::SimpleFileOptions::default())
}

/// The entries after `data` is added to the contents of the last one.
pub open spec fn extended_last(es: Seq<(Seq<char>, Seq<u8>)>, data: Seq<u8>) -> Seq<(Seq<char>, Seq<u8>)> {
    es.update(es.len() - 1, (es.last().0, es.last().1 + data))
}

/// Relies on `std::io::Write::write_all` over `zip::ZipWriter`'s `write`: on
/// success the bytes extend the open entry, which stays open. `write` fails
/// only with no entry open, or once an entry passes 4 GiB.
#[verifier::external_body]
fn write_entry(w: &mut ArchiveWriter, data: &[u8]) -> (r: Result<(), std::io::Error>)
    requires
        zip_entries(*old(w)).len() > 0,
    ensures
        r is Ok ==> zip_entries(*final(w)) == extended_last(zip_entries(*old(w)), data@),
        r is Ok ==> zip_open(*final(w)) == zip_open(*old(w)),
        zip_open(*old(w)) && zip_entries(*old(w)).last().1.len() + data@.len() <= MAX_ENTRY_BYTES
            ==> r is Ok,
{
    std::io::Write::write_all(&mut w.inner, data)
}

/// Relies on `zip::ZipWriter::finish`, which closes the open entry (failing
/// only when its compressed size passes 4 GiB), writes the central directory
/// to the in-memory buffer and hands the buffer back.
#[verifier::external_body]
fn finish_archive(w: ArchiveWriter) -> (r: Result<Vec<u8>, ZipError>)
    ensures
        r is Ok ==> r->Ok_0@ == zip_archive(w),
        last_fits(zip_entries(w)) ==> r is Ok,
{
    match w.inner.finish() {
        Ok(c) => Ok(c.into_inner()),
        Err(e) => Err(e),
    }
}

pub open spec fn names_distinct(es: Seq<(Seq<char>, Seq<u8>)>) -> bool {
    forall|i: int, j: int| 0 <= i < j < es.len() ==> #[trigger] es[i].0 != #[trigger] es[j].0
}

/// Every entry's name and contents are within the archive's limits.
pub open spec fn entries_fit(es: Seq<(Seq<char>, Seq<u8>)>) -> bool {
    forall|i: int| 0 <= i < es.len() ==> encode_utf8(#[trigger] es[i].0).len() <= MAX_ENTRY_NAME_BYTES
        && es[i].1.len() <= MAX_ENTRY_BYTES
}

pub open spec fn contents_view(contents: Seq<Vec<u8>>) -> Seq<Seq<u8>> {
    contents.map_values(|c: Vec<u8>| c@)
}

/// One entry per file: its name and the bytes fetched for it.
pub open spec fn file_entries(files: Seq<FileView>, contents: Seq<Seq<u8>>) -> Seq<(Seq<char>, Seq<u8>)> {
    Seq::new(files.len(), |i: int| (files[i].filename, contents[i]))
}

/// The entries of a hub's archive: the text bin first, as UTF-8, then each
/// file in order.
pub open spec fn bundle_entries(text: Seq<char>, files: Seq<FileView>, contents: Seq<Seq<u8>>) -> Seq<(Seq<char>, Seq<u8>)> {
    seq![("ephemeral_text_bin.txt"@, encode_utf8(text))] + file_entries(files, contents)
}

proof fn lemma_text_entry_name_fits()
    ensures
        encode_utf8("ephemeral_text_bin.txt"@).len() <= MAX_ENTRY_NAME_BYTES,
{
    broadcast use vstd::string::is_ascii_spec_bytes;

    reveal_strlit("ephemeral_text_bin.txt");
    assert(vstd::string::is_ascii("ephemeral_text_bin.txt"));
    assert("ephemeral_text_bin.txt".spec_bytes().len() == 22);
}

/// Starts an entry and writes its whole contents; fails only on a name
/// already in the archive.
fn add_entry(w: &mut ArchiveWriter, name: &str, data: &[u8]) -> (r: Result<(), AppError>)
    requires
        name.spec_bytes().len() <= MAX_ENTRY_NAME_BYTES,
        data@.len() <= MAX_ENTRY_BYTES,
        last_fits(zip_entries(*old(w))),
    ensures
        r is Ok ==> zip_entries(*final(w)) == zip_entries(*old(w)).push((name@, data@)),
        r is Ok ==> zip_open(*final(w)),
        r is Ok <==> forall|i: int| 0 <= i < zip_entries(*old(w)).len() ==> #[trigger] zip_entries(*old(w))[i].0 != name@,
        r is Err ==> r == Err::<(), AppError>(AppError::ArchiveFailure),
{
    match start_entry(w, name) {
        Ok(()) => {},
        Err(_) => return Err(AppError::ArchiveFailure),
    }
    assert(zip_entries(*w).last().1.len() == 0);
    match write_entry(w, data) {
        Ok(()) => {},
        Err(_) => return Err(AppError::ArchiveFailure),
    }
    assert(Seq::<u8>::empty() + data@ =~= data@);
    Ok(())
}

/// Builds the archive of a text bin and files, `contents[i]` being the bytes
/// of `files[i]`. Its entries are exactly [`bundle_entries`]. It succeeds
/// exactly when the entry names are distinct and every name and content is
/// within the archive's limits.
pub fn build_archive(text: &str, files: &Vec<FileInfo>, contents: &Vec<Vec<u8>>) -> (r: Result<Vec<u8>, AppError>)
    requires
        files.len() == contents.len(),
    ensures
        r is Ok <==> names_distinct(bundle_entries(text@, files_view(files@), contents_view(contents@)))
            && entries_fit(bundle_entries(text@, files_view(files@), contents_view(contents@))),
        r is Ok ==> exists|w: ArchiveWriter|
            zip_entries(w) == bundle_entries(text@, files_view(files@), contents_view(contents@))
                && r->Ok_0@ == zip_archive(w),
        r is Err ==> r == Err::<Vec<u8>, AppError>(AppError::ArchiveFailure),
{
    let ghost expected = bundle_entries(text@, files_view(files@), contents_view(contents@));
    proof {
        lemma_text_entry_name_fits();
    }
    let text_bytes = text.as_bytes();
    assert(text_bytes@ == encode_utf8(text@));
    assert(expected[0].0 == "ephemeral_text_bin.txt"@);
    assert(expected[0].1 == encode_utf8(text@));
    if text_bytes.len() > MAX_ENTRY_BYTES {
        assert(!entries_fit(expected)) by {
            assert(expected[0].1 == text_bytes@);
        }
        return Err(AppError::ArchiveFailure);
    }
    let mut k: usize = 0;
    while k < files.len()
        invariant
            k <= files.len(),
            files.len() == contents.len(),
            expected == bundle_entries(text@, files_view(files@), contents_view(contents@)),
            text_bytes@.len() <= MAX_ENTRY_BYTES,
            forall|j: int| 0 <= j < k + 1 ==> encode_utf8(#[trigger] expected[j].0).len() <= MAX_ENTRY_NAME_BYTES
                && expected[j].1.len() <= MAX_ENTRY_BYTES,
        decreases files.len() - k,
    {
        assert(expected[k + 1].0 == files@[k as int].filename@);
        assert(expected[k + 1].1 == contents@[k as int]@);
        let name = files[k].filename.as_str();
        assert(name.spec_bytes() == encode_utf8(expected[k + 1].0));
        let content_len = contents[k].len();
        assert(content_len == expected[k + 1].1.len());
        if name.as_bytes().len() > MAX_ENTRY_NAME_BYTES || content_len > MAX_ENTRY_BYTES {
            assert(!entries_fit(expected)) by {
                assert(expected[k + 1].0 == files@[k as int].filename@);
                assert(expected[k + 1].1 == contents@[k as int]@);
            }
            return Err(AppError::ArchiveFailure);
        }
        assert(encode_utf8(expected[k + 1].0).len() <= MAX_ENTRY_NAME_BYTES);
        assert(expected[k + 1].1.len() <= MAX_ENTRY_BYTES);
        k = k + 1;
    }
    assert(entries_fit(expected));
    let mut w = new_archive();
    let r = add_entry(&mut w, "ephemeral_text_bin.txt", text_bytes);
    assert(r is Ok);
    assert(zip_entries(w) =~= expected.take(1));
    let mut i: usize = 0;
    while i < files.len()
        invariant
            i <= files.len(),
            files.len() == contents.len(),
            expected == bundle_entries(text@, files_view(files@), contents_view(contents@)),
            entries_fit(expected),
            zip_entries(w) == expected.take(i + 1),
            names_distinct(zip_entries(w)),
        decreases files.len() - i,
    {
        assert(expected[i + 1].0 == files@[i as int].filename@);
        assert(expected[i + 1].1 == contents@[i as int]@);
        assert(zip_entries(w).last() == expected[i as int]);
        assert(encode_utf8(expected[i as int].0).len() <= MAX_ENTRY_NAME_BYTES);
        let ghost before = zip_entries(w);
        let name = files[i].filename.as_str();
        assert(name.spec_bytes() == encode_utf8(expected[i + 1].0));
        let r = add_entry(&mut w, name, contents[i].as_slice());
        if r.is_err() {
            assert(!names_distinct(expected)) by {
                let j = choose|j: int| 0 <= j < before.len() && #[trigger] before[j].0 == name@;
                assert(expected[j].0 == expected[i + 1].0);
            }
            return Err(AppError::ArchiveFailure);
        }
        assert(zip_entries(w) =~= expected.take(i + 2));
        i = i + 1;
    }
    assert(expected.take(files.len() + 1) =~= expected);
    assert(encode_utf8(expected[files.len() as int].0).len() <= MAX_ENTRY_NAME_BYTES);
    assert(last_fits(zip_entries(w)));
    match finish_archive(w) {
        Ok(bytes) => Ok(bytes),
        Err(_) => Err(AppError::ArchiveFailure),
    }
}

/// Keys of a hub's files in the object store, in the order of its file list.
pub fn blob_keys(hub: &Hub) -> (r: Vec<String>)
    ensures
        r@.len() == hub@.files.len(),
        forall|i: int| 0 <= i < r@.len() ==> #[trigger] r@[i]@ == blob_key_of(hub@.id, hub@.files[i].filename),
{
    let mut r: Vec<String> = Vec::new();
    let mut i: usize = 0;
    while i < hub.files.len()
        invariant
            i <= hub.files.len(),
            r@.len() == i,
            forall|j: int| 0 <= j < i ==> #[trigger] r@[j]@ == blob_key_of(hub@.id, hub@.files[j].filename),
        decreases hub.files.len() - i,
    {
        r.push(blob_key(hub.id.as_str(), hub.files[i].filename.as_str()));
        i = i + 1;
    }
    r
}

/// The archive of a hub, from the bytes fetched for each of its files (in
/// the order of [`blob_keys`]). A count of contents that does not match the
/// file list means a file could not be read. Otherwise it succeeds exactly
/// when the entry names are distinct and within the archive's limits.
pub fn download_files(hub: &Hub, contents: &Vec<Vec<u8>>) -> (r: Result<Vec<u8>, AppError>)
    ensures
        contents@.len() != hub@.files.len() ==> r == Err::<Vec<u8>, AppError>(AppError::ReadFailure),
        contents@.len() == hub@.files.len() ==> (r is Ok <==> names_distinct(
            bundle_entries(hub@.content, hub@.files, contents_view(contents@)),
        ) && entries_fit(bundle_entries(hub@.content, hub@.files, contents_view(contents@)))),
        r is Ok ==> exists|w: ArchiveWriter|
            zip_entries(w) == bundle_entries(hub@.content, hub@.files, contents_view(contents@))
                && r->Ok_0@ == zip_archive(w),
        contents@.len() == hub@.files.len() && r is Err ==> r == Err::<Vec<u8>, AppError>(AppError::ArchiveFailure),
{
    if contents.len() != hub.files.len() {
        return Err(AppError::ReadFailure);
    }
    build_archive(hub.content.as_str(), &hub.files, contents)
}

// A model of the object store, to relate uploads to the archive.
/// Stores each upload of a hub under its key, in order; a later upload of a
/// name replaces the earlier one.
pub open spec fn put_all(
    blobs: Map<Seq<char>, Seq<u8>>,
    hub_id: Seq<char>,
    uploads: Seq<(Seq<char>, Seq<u8>)>,
) -> Map<Seq<char>, Seq<u8>>
    decreases uploads.len(),
{
    if uploads.len() == 0 {
        blobs
    } else {
        put_all(blobs, hub_id, uploads.drop_last()).insert(
            blob_key_of(hub_id, uploads.last().0),
            uploads.last().1,
        )
    }
}

/// What fetching each file of a hub from the object store gives.
pub open spec fn fetch_all(blobs: Map<Seq<char>, Seq<u8>>, hub_id: Seq<char>, files: Seq<FileView>) -> Seq<Seq<u8>> {
    Seq::new(files.len(), |i: int| blobs[blob_key_of(hub_id, files[i].filename)])
}

/// The metadata recorded for uploads.
pub open spec fn upload_infos(uploads: Seq<(Seq<char>, Seq<u8>)>) -> Seq<FileView> {
    uploads.map_values(|u: (Seq<char>, Seq<u8>)| FileView { filename: u.0, size: u.1.len() as u64 })
}

proof fn lemma_blob_key_injective(hub_id: Seq<char>, f1: Seq<char>, f2: Seq<char>)
    requires
        blob_key_of(hub_id, f1) == blob_key_of(hub_id, f2),
    ensures
        f1 == f2,
{
    reveal_strlit("/");
    let n = hub_id.len() as int + 1;
    assert(blob_key_of(hub_id, f1).skip(n) =~= f1);
    assert(blob_key_of(hub_id, f2).skip(n) =~= f2);
}

proof fn lemma_put_all_holds(
    blobs: Map<Seq<char>, Seq<u8>>,
    hub_id: Seq<char>,
    uploads: Seq<(Seq<char>, Seq<u8>)>,
    j: int,
)
    requires
        0 <= j < uploads.len(),
        forall|a: int, b: int| 0 <= a < b < uploads.len() ==> #[trigger] uploads[a].0 != #[trigger] uploads[b].0,
    ensures
        put_all(blobs, hub_id, uploads).contains_key(blob_key_of(hub_id, uploads[j].0)),
        put_all(blobs, hub_id, uploads)[blob_key_of(hub_id, uploads[j].0)] == uploads[j].1,
    decreases uploads.len(),
{
    let last = uploads.len() - 1;
    if j < last {
        let init = uploads.drop_last();
        assert(init[j] == uploads[j]);
        assert forall|a: int, b: int| 0 <= a < b < init.len() implies #[trigger] init[a].0 != #[trigger] init[b].0 by {
            assert(init[a] == uploads[a] && init[b] == uploads[b]);
        }
        lemma_put_all_holds(blobs, hub_id, init, j);
        if blob_key_of(hub_id, uploads[j].0) == blob_key_of(hub_id, uploads[last].0) {
            lemma_blob_key_injective(hub_id, uploads[j].0, uploads[last].0);
        }
    }
}

/// Files uploaded to a live hub, with their metadata appended to its record,
/// come back in its archive after the text bin: one entry per upload, in
/// upload order, with the uploaded bytes. Upload names are taken distinct
/// (a repeated name keeps only its last bytes).
pub proof fn lemma_uploads_are_bundled(
    s: StoreModel,
    blobs: Map<Seq<char>, Seq<u8>>,
    id: Seq<char>,
    uploads: Seq<(Seq<char>, Seq<u8>)>,
)
    requires
        s.entries.contains_key(hub_key_of(id)),
        s.entries[hub_key_of(id)].ttl > 0,
        s.entries[hub_key_of(id)].record.id == id,
        forall|a: int, b: int| 0 <= a < b < uploads.len() ==> #[trigger] uploads[a].0 != #[trigger] uploads[b].0,
    ensures
        ({
            let k = hub_key_of(id);
            let before = s.entries[k].record;
            let (s2, r) = mutate_in_store(s, k, EditView::AddFiles(upload_infos(uploads)));
            let h = stored_record(s2, k)->Some_0;
            let es = bundle_entries(h.content, h.files, fetch_all(put_all(blobs, id, uploads), id, h.files));
            &&& r == Ok::<(), AppError>(())
            &&& stored_record(s2, k) is Some
            &&& es.len() == 1 + before.files.len() + uploads.len()
            &&& es[0] == ("ephemeral_text_bin.txt"@, vstd::utf8::encode_utf8(h.content))
            &&& forall|j: int| 0 <= j < uploads.len() ==> #[trigger] es[1 + before.files.len() + j] == uploads[j]
        }),
{
    let k = hub_key_of(id);
    let before = s.entries[k].record;
    let (s2, r) = mutate_in_store(s, k, EditView::AddFiles(upload_infos(uploads)));
    let h = stored_record(s2, k)->Some_0;
    let b2 = put_all(blobs, id, uploads);
    let es = bundle_entries(h.content, h.files, fetch_all(b2, id, h.files));
    assert forall|j: int| 0 <= j < uploads.len() implies #[trigger] es[1 + before.files.len() + j] == uploads[j] by {
        let i = before.files.len() + j;
        assert(h.files[i] == upload_infos(uploads)[j]);
        lemma_put_all_holds(blobs, id, uploads, j);
    }
}

} // verus!
