//! Transfer controller: the chunked, pipelined copy loop, progress and
//! verifying events, cooperative cancellation, and the read-back
//! verification phase.
//!
//! The controller's decisions are pure functions of the bytes that stream
//! through it and of the cancellation answers it observes, so they are
//! modelled and verified here over in-memory byte sequences.  A driver that
//! owns real file handles feeds chunks to [`CopyPhase`], compares digests
//! with [`compare_digests`], and performs the filesystem actions (create,
//! delete, release) that each outcome calls for.

use crate::digest::DigestEngine;
use crate::digest::digest_bytes;
use crate::digest::xxh3_of;
use crate::hex::hex_of;
use crate::hex::digest_hex;
use crate::hex::lemma_hex_of_injective;
use vstd::prelude::*;

verus! {

/// A notification emitted while a transfer runs: one `Progress` after every
/// chunk write, then exactly one `Verifying` when the copy phase ends and
/// verification begins (never on a cancelled run).
pub enum TransferEvent {
    Progress { filename: String, transferred: u64, total: u64 },
    Verifying { filename: String },
}

/// The mathematical content of a [`TransferEvent`].
pub enum EventView {
    Progress { filename: Seq<char>, transferred: nat, total: nat },
    Verifying { filename: Seq<char> },
}

impl View for TransferEvent {
    type V = EventView;

    closed spec fn view(&self) -> EventView {
        match self {
            TransferEvent::Progress { filename, transferred, total } => EventView::Progress {
                filename: filename@,
                transferred: *transferred as nat,
                total: *total as nat,
            },
            TransferEvent::Verifying { filename } => EventView::Verifying {
                filename: filename@,
            },
        }
    }
}

/// How a transfer can fail.  A transfer that returns an error leaves no
/// destination file, except `VerificationMismatch`, which preserves the
/// destination for inspection.
#[derive(Debug)]
pub enum TransferError {
    /// The source path did not exist at call time.
    NotFound,
    /// The filesystem refused to open the source.
    OpenFailed(String),
    /// The filesystem refused to create the destination.
    CreateFailed(String),
    /// A read or write failed mid-transfer.
    IoError(String),
    /// Cancellation was observed before or during the transfer; any partial
    /// destination file has been deleted (best effort).
    Cancelled,
    /// The digests disagreed after a structurally successful copy.  Both
    /// lowercase hexadecimal renderings are named; the destination is left
    /// in place.
    VerificationMismatch { source_digest: String, dest_digest: String },
}

/// Number of chunks a `len`-byte source yields at chunk size `c`: full
/// chunks plus one trailing partial chunk if anything remains.
pub open spec fn chunk_count(len: nat, c: nat) -> nat
    recommends
        c >= 1,
    decreases len,
        when c >= 1
{
    if len == 0 {
        0
    } else if len <= c {
        1
    } else {
        1 + chunk_count((len - c) as nat, c)
    }
}

/// Cumulative bytes transferred once chunk `i` (0-based) has been written.
pub open spec fn progress_at(len: nat, c: nat, i: int) -> nat {
    if c * (i + 1) <= len {
        (c * (i + 1)) as nat
    } else {
        len
    }
}

/// The progress events a full, uncancelled copy of `len` bytes emits, in
/// order of emission.
pub open spec fn progress_views(filename: Seq<char>, len: nat, c: nat) -> Seq<EventView> {
    Seq::new(
        chunk_count(len, c),
        |i: int| EventView::Progress { filename, transferred: progress_at(len, c, i), total: len },
    )
}

/// Everything a completed transfer emits: every progress event, then the
/// one verifying event.
pub open spec fn completed_views(filename: Seq<char>, len: nat, c: nat) -> Seq<EventView> {
    progress_views(filename, len, c).push(EventView::Verifying { filename })
}

/// The emitted events, as their mathematical views, in emission order.
pub open spec fn views_of(events: Seq<TransferEvent>) -> Seq<EventView> {
    events.map_values(|e: TransferEvent| e@)
}

/// Emitting one more event appends its view to the emitted views.
proof fn lemma_views_push(events: Seq<TransferEvent>, ev: TransferEvent)
    ensures
        views_of(events.push(ev)) =~= views_of(events).push(ev@),
{
}

/// `m` chunks cover `len` bytes exactly when `m` reaches the chunk count.
proof fn lemma_chunk_count_reached(len: nat, c: nat, m: nat)
    requires
        c >= 1,
    ensures
        (c * m >= len) <==> (m >= chunk_count(len, c)),
    decreases len,
{
    if len == 0 {
    } else if len <= c {
        if m >= 1 {
            assert(c * m >= c * 1 >= len) by (nonlinear_arith)
                requires c >= 1 && m >= 1 && len <= c;
        } else {
            assert(c * 0 == 0);
        }
    } else {
        if m >= 1 {
            lemma_chunk_count_reached((len - c) as nat, c, (m - 1) as nat);
            assert(c * m == c * (m - 1) + c) by (nonlinear_arith);
        } else {
            assert(c * 0 == 0);
        }
    }
}

/// The copy-phase state for one transfer: the running transferred-byte
/// counter and the source-side digest accumulator, pipelined over the same
/// chunks.  `total` is the size captured once from source metadata before
/// the loop starts; if the source is mutated concurrently it may go stale,
/// which is accepted.
pub struct CopyPhase {
    filename: String,
    total: u64,
    transferred: u64,
    engine: DigestEngine,
}

impl CopyPhase {
    /// The bytes fed through the phase so far, in order.
    pub closed spec fn consumed(&self) -> Seq<u8> {
        self.engine@
    }

    /// The running transferred-byte counter.
    pub closed spec fn count(&self) -> u64 {
        self.transferred
    }

    /// The total size captured at the start.
    pub closed spec fn size(&self) -> u64 {
        self.total
    }

    /// The display name events carry.
    pub closed spec fn fname(&self) -> Seq<char> {
        self.filename@
    }

    /// The counter counts exactly the bytes consumed.
    pub open spec fn wf(&self) -> bool {
        self.count() == self.consumed().len()
    }

    /// A phase about to copy `total` bytes, nothing transferred yet.
    pub fn new(filename: String, total: u64) -> (p: Self)
        ensures
            p.wf(),
            p.consumed() == Seq::<u8>::empty(),
            p.count() == 0,
            p.size() == total,
            p.fname() == filename@,
    {
        CopyPhase { filename, total, transferred: 0, engine: DigestEngine::new() }
    }

    /// Accounts for one chunk that has just been written to the destination
    /// in full: feeds the same bytes to the source-side digest, advances the
    /// counter, and returns the progress event to emit.
    pub fn note_chunk(&mut self, chunk: &[u8]) -> (ev: TransferEvent)
        requires
            old(self).wf(),
            old(self).count() + chunk@.len() <= u64::MAX,
        ensures
            final(self).wf(),
            final(self).consumed() == old(self).consumed() + chunk@,
            final(self).count() == old(self).count() + chunk@.len(),
            final(self).size() == old(self).size(),
            final(self).fname() == old(self).fname(),
            ev@ == (EventView::Progress {
                filename: old(self).fname(),
                transferred: (old(self).count() + chunk@.len()) as nat,
                total: old(self).size() as nat,
            }),
    {
        self.engine.update(chunk);
        self.transferred = self.transferred + chunk.len() as u64;
        TransferEvent::Progress {
            filename: self.filename.clone(),
            transferred: self.transferred,
            total: self.total,
        }
    }

    /// The bytes transferred so far, for callers that must bound the next
    /// chunk before accounting for it.
    pub fn transferred(&self) -> (t: u64)
        ensures
            t == self.count(),
    {
        self.transferred
    }

    /// Finalizes the source-side digest once end-of-input was reached.  The
    /// phase is spent afterwards.
    pub fn finish(self) -> (d: u64)
        ensures
            d == xxh3_of(self.consumed()),
    {
        self.engine.finalize()
    }
}

/// Renders both digests and compares them, as lowercase hexadecimal
/// strings.  Equal renderings mean equal digests, so success is returned
/// exactly when the fingerprints agree; a mismatch names both renderings
/// and is never silently retried.
pub fn compare_digests(source_digest: u64, dest_digest: u64) -> (r: Result<String, TransferError>)
    ensures
        source_digest == dest_digest ==> (r matches Ok(h) && h@ == hex_of(source_digest as nat)),
        source_digest != dest_digest ==> (r matches Err(TransferError::VerificationMismatch {
            source_digest: s,
            dest_digest: d,
        }) && s@ == hex_of(source_digest as nat) && d@ == hex_of(dest_digest as nat)),
{
    let source_hex = digest_hex(source_digest);
    let dest_hex = digest_hex(dest_digest);
    if source_hex == dest_hex {
        proof {
            lemma_hex_of_injective(source_digest as nat, dest_digest as nat);
        }
        Ok(source_hex)
    } else {
        Err(TransferError::VerificationMismatch { source_digest: source_hex, dest_digest: dest_hex })
    }
}

/// How the copy phase ended.
pub enum CopyOutcome {
    /// End-of-input was reached: the destination holds a full copy and the
    /// source-side digest is finalized.
    Copied { destination: Vec<u8>, digest: u64 },
    /// Cancellation was observed at a chunk boundary: the partial
    /// destination has been deleted.
    Cancelled,
}

/// True when a cancellation requested before check `k` is observed by a
/// copy of `len` bytes: the loop checks the flag once per iteration,
/// including the final iteration that reads end-of-input, so checks
/// `0 ..= chunk_count` happen.
pub open spec fn cancel_observed(cancel_at: Option<usize>, len: nat, c: nat) -> bool {
    match cancel_at {
        Some(k) => k <= chunk_count(len, c),
        None => false,
    }
}

/// The check index at which cancellation is observed.
pub open spec fn cancel_index(cancel_at: Option<usize>) -> nat {
    match cancel_at {
        Some(k) => k as nat,
        None => 0,
    }
}

/// The copy loop of one transfer, over an in-memory source.  Repeats: check
/// the abort flag, read up to `chunk_size` bytes (zero read bytes is normal
/// end-of-input), write them to the destination in full, feed them to the
/// source-side digest, and emit a progress event.  `cancel_at` is the check
/// index at which the abort flag is first seen raised (`None`: never);
/// the flag stays raised once seen, so the first check at or after it
/// aborts, deletes the partial destination, and stops without a verifying
/// event.
pub fn copy_phase(source: &[u8], chunk_size: usize, filename: &str, cancel_at: Option<usize>) -> (r:
    (Vec<TransferEvent>, CopyOutcome))
    requires
        chunk_size >= 1,
    ensures
        ({
            let len = source@.len();
            let c = chunk_size as nat;
            let evs = views_of(r.0@);
            &&& cancel_observed(cancel_at, len, c) ==> {
                &&& r.1 is Cancelled
                &&& evs == progress_views(filename@, len, c).take(cancel_index(cancel_at) as int)
                &&& forall|i: int| 0 <= i < evs.len() ==> evs[i] is Progress
            }
            &&& !cancel_observed(cancel_at, len, c) ==> {
                &&& r.1 matches CopyOutcome::Copied { destination, digest } && destination@
                    == source@ && digest == xxh3_of(source@)
                &&& evs == progress_views(filename@, len, c)
            }
        }),
{
    let ghost len = source@.len();
    let ghost c = chunk_size as nat;
    let ghost all_views = progress_views(filename@, len, c);
    let total_size: u64 = source.len() as u64;
    let mut phase = CopyPhase::new(filename.to_owned(), total_size);
    let mut destination: Vec<u8> = Vec::new();
    let mut events: Vec<TransferEvent> = Vec::new();
    let mut pos: usize = 0;
    let mut checks: usize = 0;
    while pos < source.len()
        invariant
            chunk_size >= 1,
            c == chunk_size as nat,
            len == source@.len(),
            total_size as nat == len,
            all_views == progress_views(filename@, len, c),
            pos as nat == (if c * checks <= len {
                c * (checks as nat)
            } else {
                len
            }),
            pos <= source.len(),
            checks <= chunk_count(len, c),
            cancel_at matches Some(k) ==> checks <= k,
            phase.wf(),
            phase.consumed() == source@.subrange(0, pos as int),
            phase.count() == pos,
            phase.size() == total_size,
            phase.fname() == filename@,
            destination@ == source@.subrange(0, pos as int),
            views_of(events@) == all_views.take(checks as int),
        decreases source@.len() - pos,
    {
        let hit = match cancel_at {
            Some(k) => checks >= k,
            None => false,
        };
        if hit {
            proof {
                let k = cancel_index(cancel_at);
                assert(checks == k);
                assert(k <= chunk_count(len, c));
            }
            return (events, CopyOutcome::Cancelled);
        }
        proof {
            assert(c * checks < len);
            lemma_chunk_count_reached(len, c, checks as nat);
            assert(checks < chunk_count(len, c));
        }
        let end: usize = if source.len() - pos < chunk_size {
            source.len()
        } else {
            pos + chunk_size
        };
        let chunk = vstd::slice::slice_subrange(source, pos, end);
        destination.extend_from_slice(chunk);
        let ev = phase.note_chunk(chunk);
        let ghost before_raw = events@;
        events.push(ev);
        proof {
            assert(c * ((checks + 1) as nat) == c * checks + c) by (nonlinear_arith);
            assert(source@.subrange(0, pos as int) + source@.subrange(pos as int, end as int)
                =~= source@.subrange(0, end as int));
            assert(pos as nat == c * (checks as nat));
            assert(end as nat == progress_at(len, c, checks as int));
            assert(total_size as nat == len);
            assert(ev@ == all_views[checks as int]);
            lemma_views_push(before_raw, ev);
            assert(all_views.take(checks as int).push(all_views[checks as int]) =~= all_views.take(
                checks + 1,
            ));
            assert(views_of(events@) =~= all_views.take(checks + 1));
            assert(checks as nat <= c * (checks as nat)) by (nonlinear_arith)
                requires c >= 1;
        }
        pos = end;
        checks = checks + 1;
    }
    proof {
        assert(pos == len);
        assert(c * checks >= len);
        lemma_chunk_count_reached(len, c, checks as nat);
        assert(checks == chunk_count(len, c));
        assert(all_views.take(checks as int) =~= all_views);
        assert(source@.subrange(0, len as int) =~= source@);
    }
    let hit = match cancel_at {
        Some(k) => checks >= k,
        None => false,
    };
    if hit {
        return (events, CopyOutcome::Cancelled);
    }
    let digest = phase.finish();
    (events, CopyOutcome::Copied { destination, digest })
}

/// The verification phase: re-reads the persisted destination end-to-end in
/// the same chunk size through a fresh digest engine, and compares that
/// arm's-length fingerprint with the source-side one.  Success is returned
/// exactly when the two agree; the destination is left in place either way.
pub fn verify_phase(destination: &[u8], chunk_size: usize, source_digest: u64) -> (r: Result<
    String,
    TransferError,
>)
    requires
        chunk_size >= 1,
    ensures
        xxh3_of(destination@) == source_digest ==> (r matches Ok(h) && h@ == hex_of(
            source_digest as nat,
        )),
        xxh3_of(destination@) != source_digest ==> (r matches Err(
            TransferError::VerificationMismatch { source_digest: s, dest_digest: d },
        ) && s@ == hex_of(source_digest as nat) && d@ == hex_of(xxh3_of(destination@) as nat)),
{
    let dest_digest = digest_bytes(destination, chunk_size);
    compare_digests(source_digest, dest_digest)
}

/// Everything one transfer call leaves behind: the destination content
/// (`None` after cancellation: the partial file was deleted), the ordered
/// events that were emitted, and the outcome handed to the caller.
pub struct TransferRun {
    pub destination: Option<Vec<u8>>,
    pub events: Vec<TransferEvent>,
    pub outcome: Result<String, TransferError>,
}

/// The destination content a successful transfer leaves: a byte-for-byte
/// copy of the source as it was read.
pub open spec fn completed_destination(source: Seq<u8>) -> Seq<u8> {
    source
}

/// The digest a successful transfer returns, as callers see it.
pub open spec fn completed_digest(source: Seq<u8>) -> Seq<char> {
    hex_of(xxh3_of(source) as nat)
}

/// One whole transfer over an in-memory source: the copy phase, then — on
/// uncancelled runs — the verifying event and the read-back verification
/// phase.  The destination is absent after cancellation and a verified full
/// copy otherwise; events are emitted in order, the verifying event exactly
/// once and last.
pub fn run_transfer(source: &[u8], chunk_size: usize, filename: &str, cancel_at: Option<usize>) -> (r:
    TransferRun)
    requires
        chunk_size >= 1,
    ensures
        ({
            let len = source@.len();
            let c = chunk_size as nat;
            let evs = views_of(r.events@);
            &&& cancel_observed(cancel_at, len, c) ==> {
                &&& r.destination is None
                &&& r.outcome matches Err(e) && e is Cancelled
                &&& evs == progress_views(filename@, len, c).take(cancel_index(cancel_at) as int)
                &&& forall|i: int| 0 <= i < evs.len() ==> evs[i] is Progress
            }
            &&& !cancel_observed(cancel_at, len, c) ==> {
                &&& r.destination matches Some(d) && d@ == completed_destination(source@)
                &&& r.outcome matches Ok(h) && h@ == completed_digest(source@)
                &&& evs == completed_views(filename@, len, c)
            }
        }),
{
    let (mut events, outcome) = copy_phase(source, chunk_size, filename, cancel_at);
    match outcome {
        CopyOutcome::Cancelled => TransferRun {
            destination: None,
            events,
            outcome: Err(TransferError::Cancelled),
        },
        CopyOutcome::Copied { destination, digest } => {
            let ghost before = views_of(events@);
            let ghost before_raw = events@;
            let ev = TransferEvent::Verifying { filename: filename.to_owned() };
            events.push(ev);
            proof {
                lemma_views_push(before_raw, ev);
                assert(views_of(events@) =~= before.push(ev@));
            }
            let outcome = verify_phase(destination.as_slice(), chunk_size, digest);
            TransferRun { destination: Some(destination), events, outcome }
        },
    }
}

/// The transferred-byte figure an event reports.
pub open spec fn transferred_of(ev: EventView) -> nat {
    match ev {
        EventView::Progress { transferred, .. } => transferred,
        EventView::Verifying { .. } => 0,
    }
}

/// Event-order law for a completed transfer of `len` bytes: progress
/// figures are monotonically non-decreasing and end at the total, every
/// event carries that total, and the verifying event appears exactly once,
/// after every progress event.
pub proof fn lemma_event_order(filename: Seq<char>, len: nat, c: nat)
    requires
        c >= 1,
    ensures
        ({
            let evs = completed_views(filename, len, c);
            let n = chunk_count(len, c);
            &&& evs.len() == n + 1
            &&& forall|i: int|
                0 <= i < n ==> evs[i] == (EventView::Progress {
                    filename,
                    transferred: progress_at(len, c, i),
                    total: len,
                })
            &&& forall|i: int, j: int|
                0 <= i <= j < n ==> transferred_of(evs[i]) <= transferred_of(evs[j])
            &&& n > 0 ==> transferred_of(evs[n - 1]) == len
            &&& evs[n as int] == (EventView::Verifying { filename })
            &&& forall|i: int| 0 <= i < n ==> !(evs[i] is Verifying)
        }),
{
    let evs = completed_views(filename, len, c);
    let n = chunk_count(len, c);
    assert forall|i: int, j: int| 0 <= i <= j < n implies transferred_of(evs[i]) <= transferred_of(
        evs[j],
    ) by {
        assert(c * (i + 1) <= c * (j + 1)) by (nonlinear_arith)
            requires c >= 1 && i <= j;
    }
    if n > 0 {
        lemma_chunk_count_reached(len, c, n);
        assert(c * n >= len);
        assert(transferred_of(evs[n - 1]) == progress_at(len, c, n - 1));
        assert(c * ((n - 1) + 1) == c * n);
    }
}

/// Idempotence law: a transfer re-run on the same source after a prior
/// success overwrites the destination with identical content and returns
/// the identical digest.
pub proof fn lemma_transfer_idempotent(
    source: Seq<u8>,
    dest1: Seq<u8>,
    hex1: Seq<char>,
    dest2: Seq<u8>,
    hex2: Seq<char>,
)
    requires
        dest1 == completed_destination(source),
        hex1 == completed_digest(source),
        dest2 == completed_destination(source),
        hex2 == completed_digest(source),
    ensures
        dest1 == dest2,
        hex1 == hex2,
{
}

} // verus!
