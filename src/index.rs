//! Content-addressed document entries and the bounded batch that collects
//! them for bulk writes.
use sha2::Digest;
use vstd::prelude::*;

verus! {

/// Default number of entries a batch holds before it is flushed.
pub const DEFAULT_CACHE_SIZE: usize = 10000;

/// The SHA-256 digest of a byte sequence.
pub uninterp spec fn sha256_of(b: Seq<u8>) -> Seq<u8>;

/// The URL-safe, unpadded base64 text of a byte sequence.
pub uninterp spec fn base64_url_of(b: Seq<u8>) -> Seq<char>;

/// Relies on sha2's `Sha256::digest`: the 32-byte digest of the input.
#[verifier::external_body]
fn sha256(b: &[u8]) -> (r: Vec<u8>)
    ensures
        r@ == sha256_of(b@),
        r@.len() == 32,
{
    sha2::Sha256::digest(b).to_vec()
}

/// A character of the URL-safe base64 alphabet.
pub open spec fn url_safe_char(c: char) -> bool {
    ('A' <= c && c <= 'Z') || ('a' <= c && c <= 'z') || ('0' <= c && c <= '9') || c == '-' || c
        == '_'
}

/// Relies on base64's `encode_config` with `URL_SAFE_NO_PAD`: four characters
/// of the URL-safe alphabet per three bytes, no padding.
#[verifier::external_body]
fn base64_url(b: &[u8]) -> (r: String)
    ensures
        r@ == base64_url_of(b@),
        r@.len() == (4 * b@.len() + 2) / 3,
        forall|i: int| 0 <= i < r@.len() ==> url_safe_char(#[trigger] r@[i]),
{
    base64::encode_config(b, base64::URL_SAFE_NO_PAD)
}

/// The identifier of a document's serialized content.
pub open spec fn content_id(content: Seq<u8>) -> Seq<char> {
    base64_url_of(sha256_of(content))
}

/// A serialized document and the identifier derived from its content.
pub struct CachedEntry {
    pub id: String,
    pub content: Vec<u8>,
}

impl CachedEntry {
    /// Wraps serialized content; its id is the URL-safe base64 of its SHA-256.
    pub fn from_content(content: Vec<u8>) -> (r: CachedEntry)
        ensures
            r.id@ == content_id(content@),
            r.content@ == content@,
            r.id@.len() == 43,
            forall|i: int| 0 <= i < r.id@.len() ==> url_safe_char(#[trigger] r.id@[i]),
    {
        let digest = sha256(content.as_slice());
        let id = base64_url(digest.as_slice());
        CachedEntry { id, content }
    }
}

/// Identical content gets the identical id, on every call.
pub proof fn lemma_id_deterministic(a: CachedEntry, b: CachedEntry)
    requires
        a.id@ == content_id(a.content@),
        b.id@ == content_id(b.content@),
        a.content@ == b.content@,
    ensures
        a.id@ == b.id@,
{
}

/// The batch after an append, and what is handed out for a bulk write:
/// the whole batch once it reaches the capacity.
pub open spec fn add_outcome(capacity: nat, batch: Seq<CachedEntry>, e: CachedEntry) -> (
    Seq<CachedEntry>,
    Option<Seq<CachedEntry>>,
) {
    let appended = batch.push(e);
    if appended.len() >= capacity {
        (Seq::empty(), Some(appended))
    } else {
        (appended, None)
    }
}

/// The batch after a flush request, and what is handed out: nothing when empty.
pub open spec fn take_outcome(batch: Seq<CachedEntry>) -> (
    Seq<CachedEntry>,
    Option<Seq<CachedEntry>>,
) {
    if batch.len() == 0 {
        (batch, None)
    } else {
        (Seq::empty(), Some(batch))
    }
}

/// Whether a change of capacity needs the batch written first: the
/// capacity shrinks, or the batch is longer than the new one.
pub open spec fn resize_needs_flush(capacity: nat, batch: Seq<CachedEntry>, new_capacity: nat) -> bool {
    batch.len() > 0 && (new_capacity < capacity || batch.len() > new_capacity)
}

/// The state after a request to change the capacity: (capacity, batch,
/// handed out). When a write is needed the batch is handed out and the old
/// capacity stays until the write is confirmed; otherwise the new capacity
/// applies at once.
pub open spec fn resize_outcome(capacity: nat, batch: Seq<CachedEntry>, new_capacity: nat) -> (
    nat,
    Seq<CachedEntry>,
    Option<Seq<CachedEntry>>,
) {
    if resize_needs_flush(capacity, batch, new_capacity) {
        (capacity, Seq::empty(), Some(batch))
    } else {
        (new_capacity, batch, None)
    }
}

/// A batch paired with what an operation handed out.
pub open spec fn handed_out(batch: Seq<CachedEntry>, r: Option<Vec<CachedEntry>>) -> (
    Seq<CachedEntry>,
    Option<Seq<CachedEntry>>,
) {
    match r {
        Some(v) => (batch, Some(v@)),
        None => (batch, None),
    }
}

/// The in-memory batch of entries awaiting a bulk write.
pub struct DocumentCache {
    cache_size: usize,
    batch: Vec<CachedEntry>,
}

impl DocumentCache {
    pub closed spec fn capacity_spec(&self) -> nat {
        self.cache_size as nat
    }

    pub closed spec fn batch_spec(&self) -> Seq<CachedEntry> {
        self.batch@
    }

    pub fn new() -> (r: DocumentCache)
        ensures
            r.capacity_spec() == DEFAULT_CACHE_SIZE,
            r.batch_spec() == Seq::<CachedEntry>::empty(),
    {
        DocumentCache { cache_size: DEFAULT_CACHE_SIZE, batch: Vec::new() }
    }

    pub fn cache_size(&self) -> (r: usize)
        ensures
            r == self.capacity_spec(),
    {
        self.cache_size
    }

    pub fn len(&self) -> (r: usize)
        ensures
            r == self.batch_spec().len(),
    {
        self.batch.len()
    }

    /// The entries in the batch, in the order they were added.
    pub fn entries(&self) -> (r: &Vec<CachedEntry>)
        ensures
            r@ == self.batch_spec(),
    {
        &self.batch
    }

    /// Appends a document's serialized content. When the batch then reaches
    /// the capacity it is swapped out and returned for a bulk write, and an
    /// empty batch takes its place.
    pub fn add_bulk_document(&mut self, content: Vec<u8>) -> (r: Option<Vec<CachedEntry>>)
        ensures
            final(self).capacity_spec() == old(self).capacity_spec(),
            old(self).batch_spec().len() + 1 >= old(self).capacity_spec() ==> r is Some,
            exists|e: CachedEntry|
                #![auto]
                e.id@ == content_id(content@) && e.content@ == content@ && handed_out(
                    final(self).batch_spec(),
                    r,
                ) == add_outcome(old(self).capacity_spec(), old(self).batch_spec(), e),
    {
        let entry = CachedEntry::from_content(content);
        let ghost e = entry;
        self.batch.push(entry);
        let r = if self.batch.len() >= self.cache_size {
            let mut full: Vec<CachedEntry> = Vec::new();
            std::mem::swap(&mut self.batch, &mut full);
            Some(full)
        } else {
            None
        };
        assert(handed_out(self.batch_spec(), r) =~~= add_outcome(
            old(self).capacity_spec(),
            old(self).batch_spec(),
            e,
        ));
        r
    }

    /// Swaps out the batch for a bulk write; an empty batch gives `None`
    /// and needs no write.
    pub fn take_batch(&mut self) -> (r: Option<Vec<CachedEntry>>)
        ensures
            final(self).capacity_spec() == old(self).capacity_spec(),
            handed_out(final(self).batch_spec(), r) == take_outcome(old(self).batch_spec()),
    {
        if self.batch.len() == 0 {
            None
        } else {
            let mut full: Vec<CachedEntry> = Vec::new();
            std::mem::swap(&mut self.batch, &mut full);
            Some(full)
        }
    }

    /// Puts back a batch whose write failed, ahead of the entries added since,
    /// so that the next write sends it again.
    pub fn restore_batch(&mut self, failed: Vec<CachedEntry>)
        ensures
            final(self).capacity_spec() == old(self).capacity_spec(),
            final(self).batch_spec() == failed@ + old(self).batch_spec(),
    {
        let mut merged = failed;
        let mut rest: Vec<CachedEntry> = Vec::new();
        std::mem::swap(&mut self.batch, &mut rest);
        merged.append(&mut rest);
        self.batch = merged;
    }

    /// Requests a new capacity. When the batch must be written first (the
    /// capacity shrinks, or the batch is longer than the new one), it is swapped out and
    /// returned, and the old capacity stays until `finish_cache_size` reports
    /// the write. Otherwise the new capacity applies at once.
    pub fn set_cache_size(&mut self, cache_size: usize) -> (r: Option<Vec<CachedEntry>>)
        ensures
            (final(self).capacity_spec(), final(self).batch_spec(), match r {
                Some(v) => Some(v@),
                None => None,
            }) == resize_outcome(old(self).capacity_spec(), old(self).batch_spec(), cache_size as nat),
    {
        if self.batch.len() > 0 && (cache_size < self.cache_size || self.batch.len() > cache_size) {
            let mut full: Vec<CachedEntry> = Vec::new();
            std::mem::swap(&mut self.batch, &mut full);
            Some(full)
        } else {
            self.cache_size = cache_size;
            None
        }
    }

    /// Completes a capacity change after the write that `set_cache_size`
    /// asked for: on success (`failed` is `None`) the new capacity applies; on
    /// failure the batch is put back and the old capacity stays.
    pub fn finish_cache_size(&mut self, cache_size: usize, failed: Option<Vec<CachedEntry>>)
        ensures
            failed is None ==> final(self).capacity_spec() == cache_size,
            failed is None ==> final(self).batch_spec() == old(self).batch_spec(),
            failed matches Some(v) ==> final(self).capacity_spec() == old(self).capacity_spec()
                && final(self).batch_spec() == v@ + old(self).batch_spec(),
    {
        match failed {
            None => {
                self.cache_size = cache_size;
            },
            Some(v) => {
                self.restore_batch(v);
            },
        }
    }
}

/// Once an append brings the batch to the capacity, the batch is handed out
/// whole and left empty, so a following flush request has nothing to write.
pub proof fn lemma_auto_flush(capacity: nat, batch: Seq<CachedEntry>, e: CachedEntry)
    requires
        batch.len() + 1 >= capacity,
    ensures
        add_outcome(capacity, batch, e).0 == Seq::<CachedEntry>::empty(),
        add_outcome(capacity, batch, e).1 == Some(batch.push(e)),
        take_outcome(add_outcome(capacity, batch, e).0).1 is None,
{
}

/// Lowering the capacity below the number of buffered entries hands them all
/// out for a write and keeps the old capacity until that write is confirmed.
pub proof fn lemma_shrink_flushes(capacity: nat, batch: Seq<CachedEntry>, new_capacity: nat)
    requires
        new_capacity < batch.len(),
    ensures
        resize_outcome(capacity, batch, new_capacity) == (
            capacity,
            Seq::<CachedEntry>::empty(),
            Some(batch),
        ),
{
}

/// How a bulk write ended.
#[derive(PartialEq, Eq, Structural, Clone, Copy, Debug)]
pub enum FlushOutcome {
    /// Every entry was written.
    Written(usize),
    /// The request succeeded, but the backend reported errors for some entries.
    PartialFailure(usize),
    /// The request succeeded, but its body has no boolean error flag.
    MalformedResponse,
    /// The request itself failed.
    TransportFailure,
}

/// Reads a bulk response: a non-success status fails the whole write, and so
/// does a body without a boolean error flag; a set flag is a partial failure;
/// only a success with the flag false is a full write.
pub fn interpret_bulk_response(item_count: usize, status_success: bool, errors: Option<bool>) -> (r:
    FlushOutcome)
    ensures
        !status_success ==> r == FlushOutcome::TransportFailure,
        status_success && errors is None ==> r == FlushOutcome::MalformedResponse,
        status_success && errors == Some(false) ==> r == FlushOutcome::Written(item_count),
        status_success && errors == Some(true) ==> r == FlushOutcome::PartialFailure(item_count),
{
    if !status_success {
        FlushOutcome::TransportFailure
    } else {
        match errors {
            None => FlushOutcome::MalformedResponse,
            Some(false) => FlushOutcome::Written(item_count),
            Some(true) => FlushOutcome::PartialFailure(item_count),
        }
    }
}

} // verus!
