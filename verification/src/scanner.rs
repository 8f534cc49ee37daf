//! Linear scan of a retrieved log archive for one exact entry path.
//!
//! The archive container itself is read by the `zip` crate; the scan —
//! exact, case-sensitive path matching over the entries in the archive's
//! own order — is this module's verified logic. A naming divergence
//! manifests as a loud "entry not found", never as a silent wrong match.

use crate::errors::Missing;
use crate::errors::PipelineError;
use crate::resolve::first_match;
use crate::resolve::lemma_first_match_complete;
use crate::resolve::lemma_first_match_is_first;
use crate::text::str_eq;
use std::io::Cursor;
use vstd::prelude::*;
use zip::read::ZipArchive;

verus! {

#[verifier::external_type_specification]
#[verifier::external_body]
#[verifier::reject_recursive_types(R)]
pub struct ExZipArchive<R>(ZipArchive<R>);

#[verifier::external_type_specification]
#[verifier::external_body]
#[verifier::reject_recursive_types(T)]
pub struct ExCursor<T>(Cursor<T>);

/// The entries of an opened archive: each member's path and decompressed
/// content, in the archive's own order.
pub uninterp spec fn archive_entries(a: ZipArchive<Cursor<Vec<u8>>>) -> Seq<(Seq<char>, Seq<u8>)>;

/// The entries that parsing a byte payload as an archive container
/// yields; the parse is a function of the bytes alone.
pub uninterp spec fn zip_entries_of(bytes: Seq<u8>) -> Seq<(Seq<char>, Seq<u8>)>;

/// Whether a byte payload parses as an archive container; the parse is a
/// function of the bytes alone, so this decides when opening succeeds.
pub uninterp spec fn zip_parses(bytes: Seq<u8>) -> bool;

/// Whether the i-th member of the archive parsed from these bytes
/// decodes cleanly; decompression reads fixed offsets of the payload, so
/// this too is a function of the bytes and the index alone.
pub uninterp spec fn entry_decodes(bytes: Seq<u8>, i: int) -> bool;

/// Whether the i-th member of an opened archive decodes cleanly. A
/// property of the archive value, carried over from `entry_decodes` by
/// the opening wrapper; reading a member leaves it unchanged.
pub uninterp spec fn member_decodes(a: ZipArchive<Cursor<Vec<u8>>>, i: int) -> bool;

/// Relies on zip::read::ZipArchive::new: parsing the central directory is
/// deterministic in the payload bytes — it succeeds exactly on payloads
/// that are a valid archive — and which members will decode is likewise
/// fixed by the bytes.
#[verifier::external_body]
fn open_archive(bytes: Vec<u8>) -> (r: Result<ZipArchive<Cursor<Vec<u8>>>, String>)
    ensures
        r is Ok <==> zip_parses(bytes@),
        r matches Ok(a) ==> archive_entries(a) == zip_entries_of(bytes@),
        r matches Ok(a) ==> forall|i: int| #[trigger] member_decodes(a, i) == entry_decodes(
            bytes@,
            i,
        ),
{
    match ZipArchive::new(Cursor::new(bytes)) {
        Ok(a) => Ok(a),
        Err(e) => Err(e.to_string()),
    }
}

/// Relies on zip::read::ZipArchive::len: the number of entries the parsed
/// central directory holds.
#[verifier::external_body]
fn archive_len(a: &ZipArchive<Cursor<Vec<u8>>>) -> (n: usize)
    ensures
        n == archive_entries(*a).len(),
{
    a.len()
}

/// Relies on zip::read::ZipArchive::name_for_index, which answers from
/// the parsed central directory and is present for every index below the
/// entry count; reading a name decompresses nothing.
#[verifier::external_body]
fn entry_name(a: &ZipArchive<Cursor<Vec<u8>>>, i: usize) -> (r: String)
    requires
        i < archive_entries(*a).len(),
    ensures
        r@ == archive_entries(*a)[i as int].0,
{
    match a.name_for_index(i) {
        Some(name) => name.to_owned(),
        None => String::new(),
    }
}

/// Relies on zip::read::ZipArchive::by_index and std::io::Read::read_to_end:
/// the entry's decompressed bytes, succeeding exactly when the member
/// decodes (it fails on a corrupt, encrypted or unsupported member); the
/// entry listing itself is unaffected either way.
#[verifier::external_body]
fn entry_content(a: &mut ZipArchive<Cursor<Vec<u8>>>, i: usize) -> (r: Result<Vec<u8>, String>)
    requires
        i < archive_entries(*old(a)).len(),
    ensures
        archive_entries(*final(a)) == archive_entries(*old(a)),
        r is Ok <==> member_decodes(*old(a), i as int),
        r matches Ok(c) ==> c@ == archive_entries(*old(a))[i as int].1,
{
    let mut file = match a.by_index(i) {
        Ok(f) => f,
        Err(e) => return Err(e.to_string()),
    };
    let mut content = Vec::new();
    match std::io::Read::read_to_end(&mut file, &mut content) {
        Ok(_) => Ok(content),
        Err(e) => Err(e.to_string()),
    }
}

/// Scans the archive's entries in order for an exact path match against
/// `target` and returns the first matching entry's content. When the
/// entry set is exhausted without a match, the target path is reported as
/// not found; a matching member that does not decode is a transport
/// failure, never a silent substitution.
pub fn find(archive: &mut ZipArchive<Cursor<Vec<u8>>>, target: &str) -> (r: Result<
    Vec<u8>,
    PipelineError,
>)
    ensures
        archive_entries(*final(archive)) == archive_entries(*old(archive)),
        match first_match(
            archive_entries(*old(archive)),
            (|e: (Seq<char>, Seq<u8>)| e.0 == target@),
        ) {
            Some(k) => if member_decodes(*old(archive), k) {
                r matches Ok(c) && c@ == archive_entries(*old(archive))[k].1
            } else {
                r matches Err(e) && e matches PipelineError::Transport(_)
            },
            None => r matches Err(e) && e matches PipelineError::NotFound(m) && m
                matches Missing::Entry(t) && t@ == target@,
        },
{
    let ghost entries = archive_entries(*archive);
    let n = archive_len(archive);
    let mut i: usize = 0;
    while i < n
        invariant
            *archive == *old(archive),
            entries == archive_entries(*old(archive)),
            archive_entries(*archive) == entries,
            n == entries.len(),
            i <= n,
            forall|j: int| 0 <= j < i ==> entries[j].0 != target@,
        decreases n - i,
    {
        let name = entry_name(archive, i);
        if str_eq(name.as_str(), target) {
            proof {
                lemma_first_match_complete(
                    entries,
                    |e: (Seq<char>, Seq<u8>)| e.0 == target@,
                    i as int,
                );
            }
            match entry_content(archive, i) {
                Ok(content) => {
                    return Ok(content);
                },
                Err(msg) => {
                    return Err(PipelineError::Transport(msg));
                },
            }
        }
        i += 1;
    }
    proof {
        lemma_first_match_is_first(entries, |e: (Seq<char>, Seq<u8>)| e.0 == target@);
        match first_match(entries, |e: (Seq<char>, Seq<u8>)| e.0 == target@) {
            Some(k) => {
                assert(false);
            },
            None => {},
        }
    }
    Err(PipelineError::NotFound(Missing::Entry(target.to_owned())))
}

/// Decodes `payload` as an archive container and scans it for `target`.
/// On a payload that parses, success is owed: the first exactly matching
/// entry's content when it decodes, "entry not found" with the target
/// path when nothing matches; a payload that does not parse, or a
/// matching member that does not decode, is a transport failure.
pub fn scan_archive(payload: Vec<u8>, target: &str) -> (r: Result<Vec<u8>, PipelineError>)
    ensures
        if zip_parses(payload@) {
            match first_match(
                zip_entries_of(payload@),
                (|e: (Seq<char>, Seq<u8>)| e.0 == target@),
            ) {
                Some(k) => if entry_decodes(payload@, k) {
                    r matches Ok(c) && c@ == zip_entries_of(payload@)[k].1
                } else {
                    r matches Err(e) && e matches PipelineError::Transport(_)
                },
                None => r matches Err(e) && e matches PipelineError::NotFound(m) && m
                    matches Missing::Entry(t) && t@ == target@,
            }
        } else {
            r matches Err(e) && e matches PipelineError::Transport(_)
        },
{
    match open_archive(payload) {
        Ok(mut archive) => {
            let ghost pre = archive;
            let r = find(&mut archive, target);
            proof {
                assert(archive_entries(pre) == zip_entries_of(payload@));
                match first_match(zip_entries_of(payload@), |e: (Seq<char>, Seq<u8>)|
                    e.0 == target@) {
                    Some(k) => {
                        assert(!(r matches Err(e) && e matches PipelineError::NotFound(m)));
                    },
                    None => {},
                }
            }
            r
        },
        Err(msg) => Err(PipelineError::Transport(msg)),
    }
}

} // verus!
