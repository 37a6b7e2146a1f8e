use mcsdk::download::{download_file, download_file_checked, DownloadAction, DownloadEvent, DownloadPhase, Transfer};

fn run(content_length: Option<u64>, chunks: &[u64]) -> (Transfer, u64, Vec<DownloadAction>) {
    let mut actions = Vec::new();
    let mut written = 0u64;
    let mut t = Transfer::begin();
    let mut step = |t: Transfer, e: DownloadEvent, actions: &mut Vec<DownloadAction>| {
        let (next, action) = download_file(t, e);
        actions.push(action);
        next
    };
    t = step(t, DownloadEvent::Response { content_length }, &mut actions);
    t = step(t, DownloadEvent::Prepared, &mut actions);
    for len in chunks {
        t = step(t, DownloadEvent::Chunk { len: *len }, &mut actions);
        if let Some(DownloadAction::Write { len, .. }) = actions.last() {
            written += *len;
        }
        t = step(t, DownloadEvent::Written, &mut actions);
    }
    t = step(t, DownloadEvent::EndOfStream, &mut actions);
    (t, written, actions)
}

#[test]
fn zero_content_length_still_writes_every_byte() {
    let (t, written, actions) = run(Some(0), &[4096, 4096, 1000]);
    assert_eq!(t, Transfer { phase: DownloadPhase::Complete, total: 0, received: 9192 });
    assert_eq!(written, 9192);
    assert_eq!(
        actions,
        vec![
            DownloadAction::Prepare,
            DownloadAction::Pull,
            DownloadAction::Write { len: 4096, position: 4096, total: 0 },
            DownloadAction::Pull,
            DownloadAction::Write { len: 4096, position: 8192, total: 0 },
            DownloadAction::Pull,
            DownloadAction::Write { len: 1000, position: 9192, total: 0 },
            DownloadAction::Pull,
            DownloadAction::Finish,
        ]
    );
    assert!(t.is_over());
}

#[test]
fn absent_content_length_counts_as_zero() {
    let (t, written, _) = run(None, &[10, 20]);
    assert_eq!(t, Transfer { phase: DownloadPhase::Complete, total: 0, received: 30 });
    assert_eq!(written, 30);
}

#[test]
fn declared_length_is_passed_on_for_display() {
    let (t, written, actions) = run(Some(30), &[10, 20]);
    assert_eq!(t, Transfer { phase: DownloadPhase::Complete, total: 30, received: 30 });
    assert_eq!(written, 30);
    assert_eq!(actions[2], DownloadAction::Write { len: 10, position: 10, total: 30 });
    assert_eq!(actions[4], DownloadAction::Write { len: 20, position: 30, total: 30 });
}

#[test]
fn body_longer_than_declared_is_written_in_full() {
    let (t, written, _) = run(Some(5), &[10, 20]);
    assert_eq!(t.received, 30);
    assert_eq!(t.total, 5);
    assert_eq!(written, 30);
    assert_eq!(t.phase, DownloadPhase::Complete);
}

#[test]
fn empty_body_completes() {
    let (t, written, actions) = run(Some(0), &[]);
    assert_eq!(t, Transfer { phase: DownloadPhase::Complete, total: 0, received: 0 });
    assert_eq!(written, 0);
    assert_eq!(actions, vec![DownloadAction::Prepare, DownloadAction::Pull, DownloadAction::Finish]);
}

#[test]
fn empty_chunks_are_written_too() {
    let (t, written, actions) = run(None, &[0, 3, 0]);
    assert_eq!(t.received, 3);
    assert_eq!(written, 3);
    assert_eq!(actions[2], DownloadAction::Write { len: 0, position: 0, total: 0 });
}

#[test]
fn failure_aborts_in_every_open_phase() {
    for phase in [DownloadPhase::Requesting, DownloadPhase::Preparing, DownloadPhase::Streaming, DownloadPhase::Writing] {
        let t = Transfer { phase, total: 9, received: 4 };
        assert_eq!(
            download_file(t, DownloadEvent::Failed),
            (Transfer { phase: DownloadPhase::Aborted, total: 9, received: 4 }, DownloadAction::Abort)
        );
    }
}

#[test]
fn ended_download_ignores_events() {
    for phase in [DownloadPhase::Complete, DownloadPhase::Aborted] {
        let t = Transfer { phase, total: 9, received: 4 };
        for e in [
            DownloadEvent::Response { content_length: Some(1) },
            DownloadEvent::Prepared,
            DownloadEvent::Chunk { len: 5 },
            DownloadEvent::Written,
            DownloadEvent::EndOfStream,
            DownloadEvent::Failed,
        ] {
            assert_eq!(download_file(t, e), (t, DownloadAction::Idle));
        }
        assert!(t.is_over());
    }
}

#[test]
fn events_out_of_turn_are_ignored() {
    let t = Transfer::begin();
    assert_eq!(download_file(t, DownloadEvent::Chunk { len: 5 }), (t, DownloadAction::Idle));
    assert_eq!(download_file(t, DownloadEvent::EndOfStream), (t, DownloadAction::Idle));
    let streaming = Transfer { phase: DownloadPhase::Streaming, total: 0, received: 0 };
    assert_eq!(download_file(streaming, DownloadEvent::Written), (streaming, DownloadAction::Idle));
    let writing = Transfer { phase: DownloadPhase::Writing, total: 0, received: 5 };
    assert_eq!(download_file(writing, DownloadEvent::Chunk { len: 5 }), (writing, DownloadAction::Idle));
    assert!(!t.is_over());
}

#[test]
fn begin_is_a_request_without_bytes() {
    assert_eq!(Transfer::begin(), Transfer { phase: DownloadPhase::Requesting, total: 0, received: 0 });
}

#[test]
fn checked_step_refuses_a_count_that_does_not_fit() {
    let t = Transfer { phase: DownloadPhase::Streaming, total: 0, received: u64::MAX - 1 };
    assert_eq!(download_file_checked(t, DownloadEvent::Chunk { len: 2 }), None);
    assert_eq!(
        download_file_checked(t, DownloadEvent::Chunk { len: 1 }),
        Some((
            Transfer { phase: DownloadPhase::Writing, total: 0, received: u64::MAX },
            DownloadAction::Write { len: 1, position: u64::MAX, total: 0 }
        ))
    );
    let writing = Transfer { phase: DownloadPhase::Writing, total: 0, received: u64::MAX };
    assert_eq!(download_file_checked(writing, DownloadEvent::Chunk { len: 9 }), Some((writing, DownloadAction::Idle)));
}
