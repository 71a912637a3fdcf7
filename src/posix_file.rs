//! File records and their decomposition into one document per distinct
//! event instant.
use crate::timestamp::{normalize, TimeError, Timestamp};
use vstd::prelude::*;
use vstd::seq_lib::lemma_seq_contains_after_push;

verus! {

/// The raw value that marks a missing timestamp in a timeline line.
pub const ABSENT: i64 = -1;

/// A timeline line as parsed: timestamps are raw local seconds, `-1` when absent.
pub struct RawRecord {
    pub name: String,
    pub inode: String,
    pub uid: u64,
    pub gid: u64,
    pub size: u64,
    pub atime: i64,
    pub mtime: i64,
    pub ctime: i64,
    pub crtime: i64,
}

/// One file with up to four event instants (modify, access, change, create).
pub struct PosixFile {
    pub name: String,
    pub inode: String,
    pub uid: u64,
    pub gid: u64,
    pub size: u64,
    pub atime: Option<Timestamp>,
    pub mtime: Option<Timestamp>,
    pub ctime: Option<Timestamp>,
    pub crtime: Option<Timestamp>,
}

/// A document keyed by one instant, carrying the whole file record.
pub struct FileDocument {
    pub timestamp: Timestamp,
    pub file: PosixFile,
}

/// The mathematical content of a file record.
pub struct FileView {
    pub name: Seq<char>,
    pub inode: Seq<char>,
    pub uid: u64,
    pub gid: u64,
    pub size: u64,
    pub atime: Option<Timestamp>,
    pub mtime: Option<Timestamp>,
    pub ctime: Option<Timestamp>,
    pub crtime: Option<Timestamp>,
}

impl View for PosixFile {
    type V = FileView;

    open spec fn view(&self) -> FileView {
        FileView {
            name: self.name@,
            inode: self.inode@,
            uid: self.uid,
            gid: self.gid,
            size: self.size,
            atime: self.atime,
            mtime: self.mtime,
            ctime: self.ctime,
            crtime: self.crtime,
        }
    }
}

/// A raw timestamp loaded in a zone: the absent marker gives no instant.
pub open spec fn loaded(raw: i64, zone: Seq<char>) -> Result<Option<Timestamp>, TimeError> {
    if raw == ABSENT {
        Ok(None)
    } else {
        match normalize(raw as int, zone) {
            Ok(t) => Ok(Some(t)),
            Err(e) => Err(e),
        }
    }
}

/// Appends an instant to a key sequence unless it is absent or already there.
pub open spec fn add_key(keys: Seq<Timestamp>, t: Option<Timestamp>) -> Seq<Timestamp> {
    match t {
        Some(x) => if keys.contains(x) {
            keys
        } else {
            keys.push(x)
        },
        None => keys,
    }
}

/// The distinct instants of a file, in the order modify, access, change, create.
pub open spec fn document_keys(f: FileView) -> Seq<Timestamp> {
    add_key(add_key(add_key(add_key(seq![], f.mtime), f.atime), f.ctime), f.crtime)
}

/// The set of instants present among a file's four timestamps.
pub open spec fn present_instants(f: FileView) -> Set<Timestamp> {
    Set::new(
        |t: Timestamp|
            f.mtime == Some(t) || f.atime == Some(t) || f.ctime == Some(t) || f.crtime == Some(
                t,
            ),
    )
}

/// The documents' instants, in order.
pub open spec fn keys_of(docs: Seq<FileDocument>) -> Seq<Timestamp> {
    docs.map_values(|d: FileDocument| d.timestamp)
}

/// Every document carries the whole file `f`.
pub open spec fn documents_of(docs: Seq<FileDocument>, f: FileView) -> bool {
    forall|i: int| 0 <= i < docs.len() ==> (#[trigger] docs[i]).file@ == f
}

/// The set of instants an optional timestamp contributes.
pub open spec fn instant_set(t: Option<Timestamp>) -> Set<Timestamp> {
    match t {
        Some(x) => set![x],
        None => Set::empty(),
    }
}

proof fn lemma_add_key(keys: Seq<Timestamp>, t: Option<Timestamp>)
    requires
        keys.no_duplicates(),
    ensures
        add_key(keys, t).no_duplicates(),
        add_key(keys, t).to_set() == keys.to_set().union(instant_set(t)),
{
    broadcast use lemma_seq_contains_after_push;

    let r = add_key(keys, t);
    assert(r.to_set() =~= keys.to_set().union(instant_set(t)));
    if let Some(x) = t {
        if !keys.contains(x) {
            assert forall|i: int, j: int|
                0 <= i < r.len() && 0 <= j < r.len() && i != j implies r[i] != r[j] by {
                if i == keys.len() {
                    assert(keys[j] == r[j]);
                } else if j == keys.len() {
                    assert(keys[i] == r[i]);
                }
            }
        }
    }
}

/// Decomposition yields exactly one document per distinct present instant:
/// the keys hold no instant twice, they are exactly the file's present
/// instants, and so their number is the number of distinct present instants.
pub proof fn lemma_one_document_per_instant(f: FileView)
    ensures
        document_keys(f).no_duplicates(),
        document_keys(f).to_set() == present_instants(f),
        document_keys(f).len() == present_instants(f).len(),
        document_keys(f).len() <= 4,
{
    let k0 = Seq::<Timestamp>::empty();
    let k1 = add_key(k0, f.mtime);
    let k2 = add_key(k1, f.atime);
    let k3 = add_key(k2, f.ctime);
    lemma_add_key(k0, f.mtime);
    lemma_add_key(k1, f.atime);
    lemma_add_key(k2, f.ctime);
    lemma_add_key(k3, f.crtime);
    assert(k0.to_set() =~= Set::empty());
    assert(document_keys(f).to_set() =~= present_instants(f));
    document_keys(f).unique_seq_to_set();
}

/// Two timestamps of a file with the same instant collapse into a single
/// document: exactly one key equals that instant.
pub proof fn lemma_equal_instants_collapse(f: FileView, t: Timestamp)
    requires
        f.mtime == Some(t) || f.atime == Some(t) || f.ctime == Some(t) || f.crtime == Some(t),
    ensures
        exists|i: int|
            0 <= i < document_keys(f).len() && document_keys(f)[i] == t && (forall|j: int|
                0 <= j < document_keys(f).len() && #[trigger] document_keys(f)[j] == t ==> j
                    == i),
{
    lemma_one_document_per_instant(f);
    assert(present_instants(f).contains(t));
    assert(document_keys(f).to_set().contains(t));
    let i = choose|i: int| 0 <= i < document_keys(f).len() && document_keys(f)[i] == t;
    assert(0 <= i < document_keys(f).len() && document_keys(f)[i] == t);
}

impl PosixFile {
    /// Loads one raw timestamp: the absent marker gives `None` and is never
    /// converted.
    pub fn load_timestamp(ts: i64, zone: &str) -> (r: Result<Option<Timestamp>, TimeError>)
        ensures
            r == loaded(ts, zone@),
    {
        if ts == ABSENT {
            Ok(None)
        } else {
            match Timestamp::from_local(ts, zone) {
                Ok(t) => Ok(Some(t)),
                Err(e) => Err(e),
            }
        }
    }

    /// Builds a file record from a parsed line whose timestamps are local
    /// seconds in zone `zone`. One timestamp that cannot be converted fails
    /// the whole record; the first failure in the order access, modify,
    /// change, create is returned.
    pub fn try_from_raw(raw: &RawRecord, zone: &str) -> (r: Result<PosixFile, TimeError>)
        ensures
            loaded(raw.atime, zone@) is Err ==> r == Err::<PosixFile, TimeError>(
                loaded(raw.atime, zone@)->Err_0,
            ),
            loaded(raw.atime, zone@) is Ok && loaded(raw.mtime, zone@) is Err ==> r == Err::<
                PosixFile,
                TimeError,
            >(loaded(raw.mtime, zone@)->Err_0),
            loaded(raw.atime, zone@) is Ok && loaded(raw.mtime, zone@) is Ok && loaded(
                raw.ctime,
                zone@,
            ) is Err ==> r == Err::<PosixFile, TimeError>(loaded(raw.ctime, zone@)->Err_0),
            loaded(raw.atime, zone@) is Ok && loaded(raw.mtime, zone@) is Ok && loaded(
                raw.ctime,
                zone@,
            ) is Ok && loaded(raw.crtime, zone@) is Err ==> r == Err::<PosixFile, TimeError>(
                loaded(raw.crtime, zone@)->Err_0,
            ),
            r is Ok <==> (loaded(raw.atime, zone@) is Ok && loaded(raw.mtime, zone@) is Ok
                && loaded(raw.ctime, zone@) is Ok && loaded(raw.crtime, zone@) is Ok),
            r matches Ok(f) ==> f@ == (FileView {
                name: raw.name@,
                inode: raw.inode@,
                uid: raw.uid,
                gid: raw.gid,
                size: raw.size,
                atime: loaded(raw.atime, zone@)->Ok_0,
                mtime: loaded(raw.mtime, zone@)->Ok_0,
                ctime: loaded(raw.ctime, zone@)->Ok_0,
                crtime: loaded(raw.crtime, zone@)->Ok_0,
            }),
    {
        let atime = match PosixFile::load_timestamp(raw.atime, zone) {
            Ok(t) => t,
            Err(e) => return Err(e),
        };
        let mtime = match PosixFile::load_timestamp(raw.mtime, zone) {
            Ok(t) => t,
            Err(e) => return Err(e),
        };
        let ctime = match PosixFile::load_timestamp(raw.ctime, zone) {
            Ok(t) => t,
            Err(e) => return Err(e),
        };
        let crtime = match PosixFile::load_timestamp(raw.crtime, zone) {
            Ok(t) => t,
            Err(e) => return Err(e),
        };
        Ok(PosixFile {
            name: raw.name.clone(),
            inode: raw.inode.clone(),
            uid: raw.uid,
            gid: raw.gid,
            size: raw.size,
            atime,
            mtime,
            ctime,
            crtime,
        })
    }

    /// A copy of this record.
    pub fn duplicate(&self) -> (r: PosixFile)
        ensures
            r@ == self@,
    {
        PosixFile {
            name: self.name.clone(),
            inode: self.inode.clone(),
            uid: self.uid,
            gid: self.gid,
            size: self.size,
            atime: self.atime,
            mtime: self.mtime,
            ctime: self.ctime,
            crtime: self.crtime,
        }
    }

    /// Adds a document for instant `ts` unless `ts` is absent or some
    /// document in `docs` already has that instant.
    pub fn add_builder_to(&self, docs: &mut Vec<FileDocument>, ts: &Option<Timestamp>)
        requires
            documents_of(old(docs)@, self@),
        ensures
            documents_of(final(docs)@, self@),
            keys_of(final(docs)@) == add_key(keys_of(old(docs)@), *ts),
    {
        if let Some(t) = ts {
            let mut i: usize = 0;
            let mut found = false;
            while i < docs.len()
                invariant
                    i <= docs@.len(),
                    found == keys_of(docs@).subrange(0, i as int).contains(*t),
                decreases docs@.len() - i,
            {
                assert(keys_of(docs@).subrange(0, i + 1) == keys_of(docs@).subrange(
                    0,
                    i as int,
                ).push(docs@[i as int].timestamp));
                let ghost prefix = keys_of(docs@).subrange(0, i as int);
                if docs[i].timestamp.ts == t.ts {
                    found = true;
                    assert(prefix.push(docs@[i as int].timestamp).last() == *t);
                } else {
                    assert forall|k: int|
                        0 <= k < prefix.len() + 1 && prefix.push(
                            docs@[i as int].timestamp,
                        )[k] == *t implies prefix.contains(*t) by {
                        assert(prefix[k] == *t);
                    }
                }
                i = i + 1;
            }
            assert(keys_of(docs@).subrange(0, docs@.len() as int) == keys_of(docs@));
            if !found {
                let doc = FileDocument { timestamp: *t, file: self.duplicate() };
                docs.push(doc);
                assert(keys_of(docs@) == keys_of(old(docs)@).push(*t));
            }
        }
    }

    /// One document per distinct instant of this file, in the order of
    /// first appearance among modify, access, change, create.
    pub fn documents(&self) -> (r: Vec<FileDocument>)
        ensures
            keys_of(r@) == document_keys(self@),
            documents_of(r@, self@),
    {
        let mut docs: Vec<FileDocument> = Vec::new();
        assert(keys_of(docs@) == Seq::<Timestamp>::empty());
        self.add_builder_to(&mut docs, &self.mtime);
        self.add_builder_to(&mut docs, &self.atime);
        self.add_builder_to(&mut docs, &self.ctime);
        self.add_builder_to(&mut docs, &self.crtime);
        docs
    }
}

} // verus!
