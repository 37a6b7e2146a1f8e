//! The bookkeeping of one streamed download.
//!
//! The caller sends the request, prepares the destination file and moves the
//! bytes, one chunk at a time and never the whole body at once; this module
//! says what comes next and keeps count.

use vstd::prelude::*;

verus! {

/// Where a download stands.
#[derive(Clone, Copy, Debug, PartialEq, Eq, Structural)]
pub enum DownloadPhase {
    /// The request is out; no response yet.
    Requesting,
    /// The destination directory and file are being made ready.
    Preparing,
    /// Waiting for the next chunk of the body.
    Streaming,
    /// A chunk is being written to the file.
    Writing,
    /// The body ended and all of it was written.
    Complete,
    /// A step failed. What was written so far stays on disk.
    Aborted,
}

/// The state of a download: its phase, the declared size of the body (0
/// where none was declared) and the bytes received so far.
#[derive(Clone, Copy, Debug, PartialEq, Eq, Structural)]
pub struct Transfer {
    pub phase: DownloadPhase,
    pub total: u64,
    pub received: u64,
}

/// What the caller reports.
#[derive(Clone, Copy, Debug, PartialEq, Eq, Structural)]
pub enum DownloadEvent {
    /// The response arrived, with or without a declared content length.
    Response { content_length: Option<u64> },
    /// The destination directory exists and the file was created.
    Prepared,
    /// A chunk of `len` bytes arrived.
    Chunk { len: u64 },
    /// The chunk was written.
    Written,
    /// The body ended.
    EndOfStream,
    /// The step that was asked for failed.
    Failed,
}

/// What the caller is to do next.
#[derive(Clone, Copy, Debug, PartialEq, Eq, Structural)]
pub enum DownloadAction {
    /// Create the destination directory with its parents if it is absent,
    /// then create the file.
    Prepare,
    /// Wait for the next chunk.
    Pull,
    /// Write all `len` bytes of the chunk to the file, and show `position`
    /// out of `total` as the progress.
    Write { len: u64, position: u64, total: u64 },
    /// Close the progress display: the download is complete.
    Finish,
    /// Give up and surface the error of the failed step.
    Abort,
    /// The event does not belong to the current phase: nothing to do.
    Idle,
}

/// The declared total of a response: 0 where no length was declared.
pub open spec fn declared_total(content_length: Option<u64>) -> u64 {
    match content_length {
        Some(n) => n,
        None => 0,
    }
}

/// One step of a download. The declared total is only ever passed on for
/// display: no decision depends on it.
pub open spec fn download_step(t: Transfer, event: DownloadEvent) -> (Transfer, DownloadAction) {
    match (t.phase, event) {
        (DownloadPhase::Requesting, DownloadEvent::Response { content_length }) => (
            Transfer { phase: DownloadPhase::Preparing, total: declared_total(content_length), received: 0 },
            DownloadAction::Prepare,
        ),
        (DownloadPhase::Preparing, DownloadEvent::Prepared) => (
            Transfer { phase: DownloadPhase::Streaming, ..t },
            DownloadAction::Pull,
        ),
        (DownloadPhase::Streaming, DownloadEvent::Chunk { len }) => (
            Transfer { phase: DownloadPhase::Writing, received: (t.received + len) as u64, ..t },
            DownloadAction::Write { len: len, position: (t.received + len) as u64, total: t.total },
        ),
        (DownloadPhase::Writing, DownloadEvent::Written) => (
            Transfer { phase: DownloadPhase::Streaming, ..t },
            DownloadAction::Pull,
        ),
        (DownloadPhase::Streaming, DownloadEvent::EndOfStream) => (
            Transfer { phase: DownloadPhase::Complete, ..t },
            DownloadAction::Finish,
        ),
        (DownloadPhase::Requesting, DownloadEvent::Failed)
        | (DownloadPhase::Preparing, DownloadEvent::Failed)
        | (DownloadPhase::Streaming, DownloadEvent::Failed)
        | (DownloadPhase::Writing, DownloadEvent::Failed) => (
            Transfer { phase: DownloadPhase::Aborted, ..t },
            DownloadAction::Abort,
        ),
        _ => (t, DownloadAction::Idle),
    }
}

/// Whether the byte count has room for `event`.
pub open spec fn fits(t: Transfer, event: DownloadEvent) -> bool {
    t.phase == DownloadPhase::Streaming && event is Chunk ==> t.received + event->len <= u64::MAX
}

impl Transfer {
    /// A download whose request has just been sent.
    pub fn begin() -> (r: Transfer)
        ensures
            r == (Transfer { phase: DownloadPhase::Requesting, total: 0, received: 0 }),
    {
        Transfer { phase: DownloadPhase::Requesting, total: 0, received: 0 }
    }

    /// Whether the download has ended, well or badly.
    pub fn is_over(&self) -> (r: bool)
        ensures
            r == (self.phase == DownloadPhase::Complete || self.phase == DownloadPhase::Aborted),
    {
        match self.phase {
            DownloadPhase::Complete => true,
            DownloadPhase::Aborted => true,
            _ => false,
        }
    }
}

/// Advances a download by one event and names the next action.
pub fn download_file(transfer: Transfer, event: DownloadEvent) -> (r: (Transfer, DownloadAction))
    requires
        fits(transfer, event),
    ensures
        r == download_step(transfer, event),
{
    match transfer.phase {
        DownloadPhase::Requesting => match event {
            DownloadEvent::Response { content_length } => {
                let total: u64 = match content_length {
                    Some(n) => n,
                    None => 0,
                };
                (Transfer { phase: DownloadPhase::Preparing, total: total, received: 0 }, DownloadAction::Prepare)
            },
            DownloadEvent::Failed => (
                Transfer { phase: DownloadPhase::Aborted, total: transfer.total, received: transfer.received },
                DownloadAction::Abort,
            ),
            _ => (transfer, DownloadAction::Idle),
        },
        DownloadPhase::Preparing => match event {
            DownloadEvent::Prepared => (
                Transfer { phase: DownloadPhase::Streaming, total: transfer.total, received: transfer.received },
                DownloadAction::Pull,
            ),
            DownloadEvent::Failed => (
                Transfer { phase: DownloadPhase::Aborted, total: transfer.total, received: transfer.received },
                DownloadAction::Abort,
            ),
            _ => (transfer, DownloadAction::Idle),
        },
        DownloadPhase::Streaming => match event {
            DownloadEvent::Chunk { len } => {
                let position: u64 = transfer.received + len;
                (
                    Transfer { phase: DownloadPhase::Writing, total: transfer.total, received: position },
                    DownloadAction::Write { len: len, position: position, total: transfer.total },
                )
            },
            DownloadEvent::EndOfStream => (
                Transfer { phase: DownloadPhase::Complete, total: transfer.total, received: transfer.received },
                DownloadAction::Finish,
            ),
            DownloadEvent::Failed => (
                Transfer { phase: DownloadPhase::Aborted, total: transfer.total, received: transfer.received },
                DownloadAction::Abort,
            ),
            _ => (transfer, DownloadAction::Idle),
        },
        DownloadPhase::Writing => match event {
            DownloadEvent::Written => (
                Transfer { phase: DownloadPhase::Streaming, total: transfer.total, received: transfer.received },
                DownloadAction::Pull,
            ),
            DownloadEvent::Failed => (
                Transfer { phase: DownloadPhase::Aborted, total: transfer.total, received: transfer.received },
                DownloadAction::Abort,
            ),
            _ => (transfer, DownloadAction::Idle),
        },
        DownloadPhase::Complete => (transfer, DownloadAction::Idle),
        DownloadPhase::Aborted => (transfer, DownloadAction::Idle),
    }
}

/// Advances a download by one event where the byte count has room for it,
/// and says `None` where it has not.
pub fn download_file_checked(transfer: Transfer, event: DownloadEvent) -> (r: Option<(Transfer, DownloadAction)>)
    ensures
        r == (if fits(transfer, event) {
            Some(download_step(transfer, event))
        } else {
            None
        }),
{
    let room = match (transfer.phase, event) {
        (DownloadPhase::Streaming, DownloadEvent::Chunk { len }) => len <= u64::MAX - transfer.received,
        _ => true,
    };
    if room {
        Some(download_file(transfer, event))
    } else {
        None
    }
}

/// The sum of chunk lengths.
pub open spec fn total_len(chunks: Seq<u64>) -> nat
    decreases chunks.len(),
{
    if chunks.len() == 0 {
        0
    } else {
        chunks[0] as nat + total_len(chunks.skip(1))
    }
}

/// The state after a run of events.
pub open spec fn after_events(t: Transfer, events: Seq<DownloadEvent>) -> Transfer
    decreases events.len(),
{
    if events.len() == 0 {
        t
    } else {
        after_events(download_step(t, events[0]).0, events.skip(1))
    }
}

/// The number of bytes that the actions of a run of events ask to write.
pub open spec fn bytes_written(t: Transfer, events: Seq<DownloadEvent>) -> nat
    decreases events.len(),
{
    if events.len() == 0 {
        0
    } else {
        let (next, action) = download_step(t, events[0]);
        let here: nat = match action {
            DownloadAction::Write { len, .. } => len as nat,
            _ => 0,
        };
        here + bytes_written(next, events.skip(1))
    }
}

/// The events of a body that arrives in `chunks`, each written in turn, and
/// then ends.
pub open spec fn streamed(chunks: Seq<u64>) -> Seq<DownloadEvent>
    decreases chunks.len(),
{
    if chunks.len() == 0 {
        seq![DownloadEvent::EndOfStream]
    } else {
        seq![DownloadEvent::Chunk { len: chunks[0] }, DownloadEvent::Written] + streamed(chunks.skip(1))
    }
}

/// The events of a whole download that meets no failure.
pub open spec fn session(content_length: Option<u64>, chunks: Seq<u64>) -> Seq<DownloadEvent> {
    seq![DownloadEvent::Response { content_length: content_length }, DownloadEvent::Prepared] + streamed(chunks)
}

/// From the streaming phase, a body that ends is written in full: the count
/// grows by the sum of the chunks, and exactly that many bytes are written,
/// whatever total was declared.
pub proof fn lemma_stream_is_written_in_full(t: Transfer, chunks: Seq<u64>)
    requires
        t.phase == DownloadPhase::Streaming,
        t.received + total_len(chunks) <= u64::MAX,
    ensures
        after_events(t, streamed(chunks)) == (Transfer {
            phase: DownloadPhase::Complete,
            total: t.total,
            received: (t.received + total_len(chunks)) as u64,
        }),
        bytes_written(t, streamed(chunks)) == total_len(chunks),
    decreases chunks.len(),
{
    let events = streamed(chunks);
    if chunks.len() == 0 {
        assert(events.skip(1) =~= Seq::<DownloadEvent>::empty());
        assert(after_events(download_step(t, events[0]).0, events.skip(1)) == download_step(t, events[0]).0);
        assert(bytes_written(download_step(t, events[0]).0, events.skip(1)) == 0);
    } else {
        let rest = streamed(chunks.skip(1));
        let first = download_step(t, events[0]);
        let second = download_step(first.0, events[1]);
        assert(events.skip(1)[0] == events[1]);
        assert(events.skip(1).skip(1) =~= rest);
        assert(total_len(chunks) == chunks[0] as nat + total_len(chunks.skip(1)));
        lemma_stream_is_written_in_full(second.0, chunks.skip(1));
        assert(after_events(t, events) == after_events(first.0, events.skip(1)));
        assert(after_events(first.0, events.skip(1)) == after_events(second.0, rest));
        assert(bytes_written(t, events) == chunks[0] as nat + bytes_written(first.0, events.skip(1)));
        assert(bytes_written(first.0, events.skip(1)) == bytes_written(second.0, rest));
    }
}

/// A download that meets no failure completes with every received byte
/// written, also where the declared length is absent, zero, or differs from
/// what arrives.
pub proof fn lemma_session_writes_all_bytes(content_length: Option<u64>, chunks: Seq<u64>)
    requires
        total_len(chunks) <= u64::MAX,
    ensures
        after_events(Transfer { phase: DownloadPhase::Requesting, total: 0, received: 0 }, session(content_length, chunks))
            == (Transfer {
            phase: DownloadPhase::Complete,
            total: declared_total(content_length),
            received: total_len(chunks) as u64,
        }),
        bytes_written(
            Transfer { phase: DownloadPhase::Requesting, total: 0, received: 0 },
            session(content_length, chunks),
        ) == total_len(chunks),
{
    let start = Transfer { phase: DownloadPhase::Requesting, total: 0, received: 0 };
    let events = session(content_length, chunks);
    let first = download_step(start, events[0]);
    let second = download_step(first.0, events[1]);
    assert(events.skip(1)[0] == events[1]);
    assert(events.skip(1).skip(1) =~= streamed(chunks));
    lemma_stream_is_written_in_full(second.0, chunks);
    assert(after_events(start, events) == after_events(first.0, events.skip(1)));
    assert(after_events(first.0, events.skip(1)) == after_events(second.0, streamed(chunks)));
    assert(bytes_written(start, events) == bytes_written(first.0, events.skip(1)));
    assert(bytes_written(first.0, events.skip(1)) == bytes_written(second.0, streamed(chunks)));
}

/// Once a download is over, no event revives it or asks for anything.
pub proof fn lemma_ended_download_stays_ended(t: Transfer, event: DownloadEvent)
    requires
        t.phase == DownloadPhase::Complete || t.phase == DownloadPhase::Aborted,
    ensures
        download_step(t, event) == (t, DownloadAction::Idle),
{
}

/// The declared total is for display only. Two downloads that differ in
/// nothing but the total take the same steps: the same phases, the same
/// counts, the same actions with the same lengths and positions.
pub proof fn lemma_total_is_for_display_only(t: Transfer, other_total: u64, event: DownloadEvent)
    requires
        t.phase != DownloadPhase::Requesting,
    ensures
        ({
            let a = download_step(t, event);
            let b = download_step(Transfer { total: other_total, ..t }, event);
            &&& b.0 == (Transfer { total: other_total, ..a.0 })
            &&& match a.1 {
                DownloadAction::Write { len, position, total } => b.1 == (DownloadAction::Write {
                    len: len,
                    position: position,
                    total: other_total,
                }),
                _ => b.1 == a.1,
            }
        }),
{
}

} // verus!
