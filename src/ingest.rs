//! Streaming validation of an uploaded payload.
//!
//! The caller reads the payload chunk by chunk, hands each chunk to
//! [`Ingest::push`], and writes it to the destination file only when told to.
//! A rejection means the partial file must be deleted. Once every chunk has
//! been handed over, [`Ingest::finish`] says whether the payload is accepted.
//!
//! The header is judged byte by byte as the payload's first bytes arrive,
//! whatever chunks carry them, and before the size ceiling is applied to the
//! chunk that carries them. So the verdict's kind depends on the payload's
//! bytes alone and never on where the chunks split: a wrong header is a
//! format error, and a payload with a right header past the ceiling is too
//! large. A ceiling shorter than the magic number admits no payload; there
//! a payload past the ceiling is too large whatever its header, and the
//! header of a payload within it is judged once the payload ends.
use vstd::prelude::*;

use crate::artifact::ArtifactKind;

verus! {

/// Why a payload was refused.
#[derive(Clone, Copy, Debug, PartialEq, Eq, Structural)]
pub enum IngestError {
    /// The payload's first bytes differ from the kind's magic number.
    BadHeader,
    /// The whole payload is shorter than the fewest bytes its kind allows:
    /// the magic number's length, or one byte for symbol files.
    MissingHeader,
    /// More bytes arrived than the ceiling allows.
    PayloadTooLarge { limit: u64, received: u64 },
}

impl IngestError {
    /// The refusal concerns the payload's format rather than its size.
    pub open spec fn is_format_error(self) -> bool {
        self is BadHeader || self is MissingHeader
    }
}

/// The magic number that a payload of each kind starts with.
pub open spec fn magic(kind: ArtifactKind) -> Seq<u8> {
    match kind {
        ArtifactKind::Report => seq![0x4Du8, 0x44u8, 0x4Du8, 0x50u8],
        ArtifactKind::Image => seq![0x4Du8, 0x5Au8],
        ArtifactKind::Symbol => Seq::empty(),
    }
}

/// The fewest bytes an acceptable payload of a kind has.
pub open spec fn min_len(kind: ArtifactKind) -> nat {
    if magic(kind).len() > 0 {
        magic(kind).len()
    } else {
        1
    }
}

/// The bytes of `x` that fall within the magic number's length agree with it.
pub open spec fn agrees_with_magic(kind: ArtifactKind, x: Seq<u8>) -> bool {
    forall|i: int| 0 <= i < x.len() && i < magic(kind).len() ==> x[i] == magic(kind)[i]
}

/// What a payload that fits under the ceiling comes to: refused when its
/// first bytes differ from the magic number, or when it is too short;
/// accepted, with its length, otherwise.
pub open spec fn payload_outcome(kind: ArtifactKind, x: Seq<u8>) -> Result<u64, IngestError> {
    if !agrees_with_magic(kind, x) {
        Err(IngestError::BadHeader)
    } else if x.len() < min_len(kind) {
        Err(IngestError::MissingHeader)
    } else {
        Ok(x.len() as u64)
    }
}

/// What an ingestion has seen so far.
#[derive(Clone, Copy, Debug, PartialEq, Eq, Structural)]
pub struct IngestState {
    pub kind: ArtifactKind,
    pub limit: u64,
    /// Bytes accepted so far.
    pub received: u64,
    /// Under a ceiling shorter than the magic number, a byte received so far
    /// differs from it (the refusal waits for the payload's end).
    pub header_bad: bool,
    /// The refusal, once there is one; it is final.
    pub failure: Option<IngestError>,
}

/// What to do with the chunk just handed over.
#[derive(Clone, Copy, Debug, PartialEq, Eq, Structural)]
pub enum ChunkVerdict {
    /// Append the chunk to the destination file.
    Write,
    /// Stop, delete the partial file, and report the error.
    Reject(IngestError),
}

pub open spec fn initial_state(kind: ArtifactKind, limit: u64) -> IngestState {
    IngestState { kind, limit, received: 0, header_bad: false, failure: None }
}

/// The ceiling leaves room for the whole magic number.
pub open spec fn ceiling_holds_magic(kind: ArtifactKind, limit: u64) -> bool {
    limit >= magic(kind).len()
}

/// The bytes of `chunk`, arriving after `received` bytes, that fall within
/// the magic number's length agree with it.
pub open spec fn chunk_agrees_with_magic(kind: ArtifactKind, received: nat, chunk: Seq<u8>) -> bool {
    forall|j: int|
        0 <= j < chunk.len() && received + j < magic(kind).len() ==> chunk[j] == magic(
            kind,
        )[received + j]
}

/// The state after a chunk arrives. The chunk's bytes that fall within the
/// magic number are judged first (under a ceiling that holds the magic
/// number), then the size ceiling.
pub open spec fn push_state(s: IngestState, chunk: Seq<u8>) -> IngestState {
    let total = s.received + chunk.len();
    let agrees = chunk_agrees_with_magic(s.kind, s.received as nat, chunk);
    if s.failure is Some {
        s
    } else if !agrees && ceiling_holds_magic(s.kind, s.limit) {
        IngestState { failure: Some(IngestError::BadHeader), ..s }
    } else if total > s.limit {
        IngestState {
            failure: Some(
                IngestError::PayloadTooLarge {
                    limit: s.limit,
                    received: if total > u64::MAX {
                        u64::MAX
                    } else {
                        total as u64
                    },
                },
            ),
            ..s
        }
    } else {
        IngestState { received: total as u64, header_bad: s.header_bad || !agrees, ..s }
    }
}

pub open spec fn verdict_of(s: IngestState) -> ChunkVerdict {
    match s.failure {
        Some(e) => ChunkVerdict::Reject(e),
        None => ChunkVerdict::Write,
    }
}

/// The outcome once the payload has ended: the number of bytes stored.
pub open spec fn finish_state(s: IngestState) -> Result<u64, IngestError> {
    match s.failure {
        Some(e) => Err(e),
        None => if s.header_bad {
            Err(IngestError::BadHeader)
        } else if s.received < min_len(s.kind) {
            Err(IngestError::MissingHeader)
        } else {
            Ok(s.received)
        },
    }
}

/// The state after a sequence of chunks.
pub open spec fn run(s: IngestState, chunks: Seq<Seq<u8>>) -> IngestState
    decreases chunks.len(),
{
    if chunks.len() == 0 {
        s
    } else {
        push_state(run(s, chunks.drop_last()), chunks.last())
    }
}

/// The chunks laid end to end.
pub open spec fn concat(chunks: Seq<Seq<u8>>) -> Seq<u8>
    decreases chunks.len(),
{
    if chunks.len() == 0 {
        Seq::empty()
    } else {
        concat(chunks.drop_last()) + chunks.last()
    }
}

/// What the payload `x` comes to under ceiling `limit`, as far as it is
/// fixed by the bytes alone: within the ceiling, `payload_outcome`; past it,
/// a format error for a wrong header under a ceiling that holds the magic
/// number, else too large, with the ceiling and a count above it (when the
/// count fits in 64 bits).
pub open spec fn verdict_fits(
    kind: ArtifactKind,
    limit: u64,
    x: Seq<u8>,
    r: Result<u64, IngestError>,
) -> bool {
    if x.len() <= limit {
        r == payload_outcome(kind, x)
    } else if ceiling_holds_magic(kind, limit) && !agrees_with_magic(kind, x) {
        r == Err::<u64, IngestError>(IngestError::BadHeader)
    } else {
        r matches Err(IngestError::PayloadTooLarge { limit: l, received: n }) && l == limit && (n
            > limit || x.len() > u64::MAX)
    }
}

/// What a state says of the chunks that led to it.
spec fn tracks(s: IngestState, kind: ArtifactKind, limit: u64, chunks: Seq<Seq<u8>>) -> bool {
    let all = concat(chunks);
    &&& s.kind == kind
    &&& s.limit == limit
    &&& s.failure is None ==> {
        &&& s.received == all.len()
        &&& all.len() <= limit
        &&& s.header_bad == !agrees_with_magic(kind, all)
        &&& ceiling_holds_magic(kind, limit) ==> !s.header_bad
    }
    &&& match s.failure {
        Some(IngestError::PayloadTooLarge { limit: l, received: r }) => l == limit && all.len()
            > limit && (r > limit || all.len() > u64::MAX) && (ceiling_holds_magic(kind, limit)
            ==> agrees_with_magic(kind, all)),
        _ => true,
    }
    &&& s.failure == Some(IngestError::BadHeader) ==> ceiling_holds_magic(kind, limit)
        && !agrees_with_magic(kind, all)
    &&& s.failure != Some(IngestError::MissingHeader)
}

/// A disagreement with the magic number survives more bytes.
proof fn lemma_disagreement_is_final(kind: ArtifactKind, a: Seq<u8>, b: Seq<u8>)
    requires
        !agrees_with_magic(kind, a),
    ensures
        !agrees_with_magic(kind, a + b),
{
    let i = choose|i: int| 0 <= i < a.len() && i < magic(kind).len() && a[i] != magic(kind)[i];
    assert((a + b)[i] == a[i]);
}

/// Once the magic number's length has arrived, agreement survives more bytes.
proof fn lemma_agreement_is_final(kind: ArtifactKind, a: Seq<u8>, b: Seq<u8>)
    requires
        agrees_with_magic(kind, a),
        a.len() >= magic(kind).len(),
    ensures
        agrees_with_magic(kind, a + b),
{
    assert forall|i: int| 0 <= i < (a + b).len() && i < magic(kind).len() implies (a + b)[i]
        == magic(kind)[i] by {
        assert((a + b)[i] == a[i]);
    }
}

/// Agreement of the bytes so far and of a new chunk is agreement of both.
proof fn lemma_agreement_extends(kind: ArtifactKind, a: Seq<u8>, c: Seq<u8>)
    requires
        agrees_with_magic(kind, a),
    ensures
        agrees_with_magic(kind, a + c) == chunk_agrees_with_magic(kind, a.len(), c),
{
    let all = a + c;
    if chunk_agrees_with_magic(kind, a.len(), c) {
        assert forall|i: int| 0 <= i < all.len() && i < magic(kind).len() implies all[i] == magic(
            kind,
        )[i] by {
            if i >= a.len() {
                assert(all[i] == c[i - a.len()]);
            }
        }
    } else {
        let j = choose|j: int|
            0 <= j < c.len() && a.len() + j < magic(kind).len() && c[j] != magic(kind)[a.len()
                + j];
        assert(all[a.len() + j] == c[j]);
    }
}

proof fn lemma_run_tracks(kind: ArtifactKind, limit: u64, chunks: Seq<Seq<u8>>)
    ensures
        tracks(run(initial_state(kind, limit), chunks), kind, limit, chunks),
    decreases chunks.len(),
{
    if chunks.len() > 0 {
        let cs = chunks.drop_last();
        let c = chunks.last();
        lemma_run_tracks(kind, limit, cs);
        let s = run(initial_state(kind, limit), cs);
        let prev = concat(cs);
        let all = concat(chunks);
        assert(all == prev + c);
        match s.failure {
            None => {
                if s.header_bad {
                    lemma_disagreement_is_final(kind, prev, c);
                } else {
                    lemma_agreement_extends(kind, prev, c);
                }
                if !s.header_bad && chunk_agrees_with_magic(kind, s.received as nat, c)
                    && ceiling_holds_magic(kind, limit) && s.received + c.len() > limit {
                    lemma_agreement_is_final(kind, all, Seq::<u8>::empty());
                }
            },
            Some(IngestError::BadHeader) => {
                lemma_disagreement_is_final(kind, prev, c);
            },
            Some(_) => {
                if ceiling_holds_magic(kind, limit) {
                    lemma_agreement_is_final(kind, prev, c);
                }
            },
        }
    }
}

/// The kind of verdict is a function of the payload's bytes alone, however
/// the payload was split into chunks. Within the ceiling it is accepted
/// exactly when it starts with its kind's magic number (`MDMP` for a crash
/// dump, `MZ` for an image) and has as many bytes as its kind needs, with the
/// whole payload's size. Past the ceiling it is refused for its header when
/// the header is wrong (and the ceiling holds the magic number), and as too
/// large otherwise.
pub proof fn lemma_verdict_depends_on_payload_only(
    kind: ArtifactKind,
    limit: u64,
    chunks: Seq<Seq<u8>>,
)
    ensures
        verdict_fits(kind, limit, concat(chunks), finish_state(run(initial_state(kind, limit), chunks))),
{
    lemma_run_tracks(kind, limit, chunks);
}

/// A payload is accepted only if it starts with its kind's magic number
/// (`MDMP` for a crash dump, `MZ` for an image) and is at least as long as
/// the kind needs, and never longer than the ceiling; the size reported is
/// that of the whole payload.
pub proof fn lemma_accepted_payload_starts_with_magic(
    kind: ArtifactKind,
    limit: u64,
    chunks: Seq<Seq<u8>>,
)
    requires
        finish_state(run(initial_state(kind, limit), chunks)) is Ok,
    ensures
        concat(chunks).len() >= min_len(kind),
        concat(chunks).take(magic(kind).len() as int) == magic(kind),
        finish_state(run(initial_state(kind, limit), chunks)) == Ok::<u64, IngestError>(
            concat(chunks).len() as u64,
        ),
        concat(chunks).len() <= limit,
{
    lemma_verdict_depends_on_payload_only(kind, limit, chunks);
    assert(concat(chunks).take(magic(kind).len() as int) =~= magic(kind));
}

/// A payload within the ceiling that starts with its kind's magic number and
/// has at least as many bytes as its kind needs is accepted, however it was
/// split into chunks.
pub proof fn lemma_well_formed_payload_is_accepted(
    kind: ArtifactKind,
    limit: u64,
    chunks: Seq<Seq<u8>>,
)
    requires
        concat(chunks).len() <= limit,
        concat(chunks).len() >= min_len(kind),
        concat(chunks).take(magic(kind).len() as int) == magic(kind),
    ensures
        finish_state(run(initial_state(kind, limit), chunks)) == Ok::<u64, IngestError>(
            concat(chunks).len() as u64,
        ),
{
    lemma_verdict_depends_on_payload_only(kind, limit, chunks);
    let all = concat(chunks);
    assert forall|i: int| 0 <= i < all.len() && i < magic(kind).len() implies all[i] == magic(
        kind,
    )[i] by {
        assert(all.take(magic(kind).len() as int)[i] == all[i]);
    }
}

/// A payload that does not start with its kind's magic number, or is shorter
/// than the fewest bytes its kind allows, is refused with a format error:
/// within the ceiling, and past it too when the ceiling holds the magic
/// number, whatever the chunks.
pub proof fn lemma_wrong_header_is_refused(kind: ArtifactKind, limit: u64, chunks: Seq<Seq<u8>>)
    requires
        concat(chunks).len() <= limit || ceiling_holds_magic(kind, limit),
        concat(chunks).len() < min_len(kind) || concat(chunks).take(magic(kind).len() as int)
            != magic(kind),
    ensures
        finish_state(run(initial_state(kind, limit), chunks)) matches Err(e) && e.is_format_error(),
{
    lemma_verdict_depends_on_payload_only(kind, limit, chunks);
    let all = concat(chunks);
    if finish_state(run(initial_state(kind, limit), chunks)) is Ok {
        lemma_accepted_payload_starts_with_magic(kind, limit, chunks);
    }
    if all.len() > limit {
        assert(all.len() >= min_len(kind));
        if agrees_with_magic(kind, all) {
            assert(all.take(magic(kind).len() as int) =~= magic(kind));
        }
    }
}

/// A payload longer than the ceiling whose header is not wrong is refused
/// as too large, with the ceiling and a count above it, however many bytes
/// were streamed before the ceiling was crossed. Under a ceiling shorter
/// than the magic number, this holds whatever the header.
pub proof fn lemma_oversized_payload_is_refused(
    kind: ArtifactKind,
    limit: u64,
    chunks: Seq<Seq<u8>>,
)
    requires
        concat(chunks).len() > limit,
        concat(chunks).len() <= u64::MAX,
        agrees_with_magic(kind, concat(chunks)) || !ceiling_holds_magic(kind, limit),
    ensures
        finish_state(run(initial_state(kind, limit), chunks)) matches Err(
            IngestError::PayloadTooLarge { limit: l, received: r },
        ) && l == limit && r > limit,
{
    lemma_verdict_depends_on_payload_only(kind, limit, chunks);
}

proof fn lemma_failure_is_final(kind: ArtifactKind, limit: u64, chunks: Seq<Seq<u8>>, k: int)
    requires
        0 <= k <= chunks.len(),
        run(initial_state(kind, limit), chunks.take(k)).failure is Some,
    ensures
        run(initial_state(kind, limit), chunks).failure is Some,
    decreases chunks.len() - k,
{
    if k < chunks.len() {
        assert(chunks.take(k + 1).drop_last() =~= chunks.take(k));
        lemma_failure_is_final(kind, limit, chunks, k + 1);
    } else {
        assert(chunks.take(k) =~= chunks);
    }
}

/// When a payload is accepted, every chunk was to be written, in order, and
/// the size reported is that of all of them together: the stored file holds
/// exactly the bytes that were uploaded.
pub proof fn lemma_accepted_payload_is_written_whole(
    kind: ArtifactKind,
    limit: u64,
    chunks: Seq<Seq<u8>>,
)
    requires
        finish_state(run(initial_state(kind, limit), chunks)) is Ok,
    ensures
        finish_state(run(initial_state(kind, limit), chunks)) == Ok::<u64, IngestError>(
            concat(chunks).len() as u64,
        ),
        forall|k: int|
            0 <= k < chunks.len() ==> verdict_of(
                push_state(run(initial_state(kind, limit), #[trigger] chunks.take(k)), chunks[k]),
            ) == ChunkVerdict::Write,
{
    lemma_accepted_payload_starts_with_magic(kind, limit, chunks);
    assert forall|k: int| 0 <= k < chunks.len() implies verdict_of(
        push_state(run(initial_state(kind, limit), #[trigger] chunks.take(k)), chunks[k]),
    ) == ChunkVerdict::Write by {
        assert(chunks.take(k + 1).drop_last() =~= chunks.take(k));
        assert(chunks.take(k + 1).last() == chunks[k]);
        if run(initial_state(kind, limit), chunks.take(k + 1)).failure is Some {
            lemma_failure_is_final(kind, limit, chunks, k + 1);
        }
    }
}

/// The validator of one payload.
pub struct Ingest {
    state: IngestState,
}

impl View for Ingest {
    type V = IngestState;

    closed spec fn view(&self) -> IngestState {
        self.state
    }
}

fn magic_len(kind: ArtifactKind) -> (r: usize)
    ensures
        r == magic(kind).len(),
{
    match kind {
        ArtifactKind::Report => 4,
        ArtifactKind::Image => 2,
        ArtifactKind::Symbol => 0,
    }
}

fn magic_byte(kind: ArtifactKind, i: usize) -> (r: u8)
    requires
        i < magic(kind).len(),
    ensures
        r == magic(kind)[i as int],
{
    match kind {
        ArtifactKind::Report => if i == 0 || i == 2 {
            0x4D
        } else if i == 1 {
            0x44
        } else {
            0x50
        },
        ArtifactKind::Image => if i == 0 {
            0x4D
        } else {
            0x5A
        },
        ArtifactKind::Symbol => 0,
    }
}

/// Whether the bytes of `chunk`, arriving after `received` bytes, that fall
/// within the magic number agree with it.
fn chunk_agrees(kind: ArtifactKind, received: u64, chunk: &[u8]) -> (r: bool)
    ensures
        r == chunk_agrees_with_magic(kind, received as nat, chunk@),
{
    let m = magic_len(kind);
    if received >= m as u64 {
        return true;
    }
    let start = received as usize;
    let mut j: usize = 0;
    while j < chunk.len() && j < m - start
        invariant
            m == magic(kind).len(),
            start == received,
            start < m,
            j <= m - start,
            forall|i: int|
                0 <= i < j ==> #[trigger] chunk@[i] == magic(kind)[start + i],
        decreases chunk.len() - j,
    {
        if chunk[j] != magic_byte(kind, start + j) {
            return false;
        }
        j = j + 1;
    }
    true
}

impl Ingest {
    /// A validator for a payload of `kind` that may hold at most `limit` bytes.
    pub fn new(kind: ArtifactKind, limit: u64) -> (r: Ingest)
        ensures
            r@ == initial_state(kind, limit),
    {
        Ingest { state: IngestState { kind, limit, received: 0, header_bad: false, failure: None } }
    }

    /// The state so far.
    pub fn state(&self) -> (r: IngestState)
        ensures
            r == self@,
    {
        self.state
    }

    /// Takes the next chunk of the payload and says what to do with it.
    pub fn push(&mut self, chunk: &[u8]) -> (r: ChunkVerdict)
        ensures
            final(self)@ == push_state(old(self)@, chunk@),
            r == verdict_of(final(self)@),
    {
        let s = self.state;
        if let Some(e) = s.failure {
            return ChunkVerdict::Reject(e);
        }
        let agrees = chunk_agrees(s.kind, s.received, chunk);
        if !agrees && s.limit >= magic_len(s.kind) as u64 {
            self.state = IngestState { failure: Some(IngestError::BadHeader), ..s };
            return ChunkVerdict::Reject(IngestError::BadHeader);
        }
        let len = chunk.len() as u64;
        if s.received > s.limit || len > s.limit - s.received {
            let received = s.received.saturating_add(len);
            let e = IngestError::PayloadTooLarge { limit: s.limit, received };
            self.state = IngestState { failure: Some(e), ..s };
            return ChunkVerdict::Reject(e);
        }
        self.state = IngestState {
            received: s.received + len,
            header_bad: s.header_bad || !agrees,
            ..s
        };
        ChunkVerdict::Write
    }

    /// The outcome once the payload has ended: the number of bytes stored, or
    /// why the payload is refused (the partial file must then be deleted).
    pub fn finish(&self) -> (r: Result<u64, IngestError>)
        ensures
            r == finish_state(self@),
    {
        match self.state.failure {
            Some(e) => Err(e),
            None => if self.state.header_bad {
                Err(IngestError::BadHeader)
            } else if self.state.received < magic_len(self.state.kind) as u64
                || self.state.received == 0 {
                Err(IngestError::MissingHeader)
            } else {
                Ok(self.state.received)
            },
        }
    }
}

} // verus!
