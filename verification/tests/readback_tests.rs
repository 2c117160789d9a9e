use lod_readback::commands::FrameRecorder;
use lod_readback::errors::{ReadbackError, ValidationError};
use lod_readback::frame::{plan_frame, record_frame};
use lod_readback::readback::{accept_code, ReadbackCycle, ReadbackPhase, MAP_SUCCESS};
use lod_readback::resources::{staging_buffer_desc, BufferDesc, BufferUsages};
use lod_readback::signal::completion_pair;

fn submitted_recorder(width: u32, height: u32) -> FrameRecorder {
    let plan = plan_frame(width, height).unwrap();
    let mut rec = record_frame(&plan);
    rec.submit();
    rec
}

#[test]
fn successful_handshake_reaches_done() {
    let staging = staging_buffer_desc(4, 4).unwrap();
    let rec = submitted_recorder(4, 4);
    let (tx, sig) = completion_pair();
    let mut cycle = ReadbackCycle::new(&rec, &staging, sig).unwrap();
    assert_eq!(cycle.phase, ReadbackPhase::AwaitingMapRequest);
    cycle.map_requested();
    assert!(tx.complete(MAP_SUCCESS));
    cycle.wait(1000).unwrap();
    assert_eq!(cycle.phase, ReadbackPhase::Mapped);
    let bytes = vec![0u8; 256];
    cycle.accept_bytes(&bytes).unwrap();
    assert_eq!(cycle.phase, ReadbackPhase::Copied);
    cycle.released();
    assert_eq!(cycle.phase, ReadbackPhase::Done);
}

#[test]
fn never_fired_signal_times_out() {
    let staging = staging_buffer_desc(4, 4).unwrap();
    let rec = submitted_recorder(4, 4);
    let (tx, sig) = completion_pair();
    let mut cycle = ReadbackCycle::new(&rec, &staging, sig).unwrap();
    cycle.map_requested();
    assert_eq!(cycle.wait(50), Err(ReadbackError::Timeout));
    assert_eq!(cycle.phase, ReadbackPhase::Failed);
    drop(tx);
}

#[test]
fn dropped_producer_fails_as_closed() {
    let staging = staging_buffer_desc(4, 4).unwrap();
    let rec = submitted_recorder(4, 4);
    let (tx, sig) = completion_pair();
    drop(tx);
    let mut cycle = ReadbackCycle::new(&rec, &staging, sig).unwrap();
    cycle.map_requested();
    assert_eq!(cycle.wait(1000), Err(ReadbackError::Closed));
    assert_eq!(cycle.phase, ReadbackPhase::Failed);
}

#[test]
fn failure_code_fails_the_mapping() {
    let staging = staging_buffer_desc(4, 4).unwrap();
    let rec = submitted_recorder(4, 4);
    let (tx, sig) = completion_pair();
    let mut cycle = ReadbackCycle::new(&rec, &staging, sig).unwrap();
    cycle.map_requested();
    assert!(tx.complete(3));
    assert_eq!(cycle.wait(1000), Err(ReadbackError::MapFailed));
    assert_eq!(cycle.phase, ReadbackPhase::Failed);
}

#[test]
fn short_read_is_rejected_whole() {
    let staging = staging_buffer_desc(4, 4).unwrap();
    let rec = submitted_recorder(4, 4);
    let (tx, sig) = completion_pair();
    let mut cycle = ReadbackCycle::new(&rec, &staging, sig).unwrap();
    cycle.map_requested();
    assert!(tx.complete(MAP_SUCCESS));
    cycle.wait(1000).unwrap();
    let bytes = vec![0u8; 255];
    assert_eq!(cycle.accept_bytes(&bytes), Err(ReadbackError::WrongLength));
    assert_eq!(cycle.phase, ReadbackPhase::Failed);
    cycle.released();
    assert_eq!(cycle.phase, ReadbackPhase::Failed);
}

#[test]
fn non_staging_buffer_cannot_open_a_cycle() {
    let bad = BufferDesc {
        size: 256,
        usage: BufferUsages { copy_dst: true, map_read: false },
        mapped_at_creation: false,
    };
    let rec = submitted_recorder(4, 4);
    let (_tx, sig) = completion_pair();
    let r = ReadbackCycle::new(&rec, &bad, sig);
    assert!(matches!(r, Err(ValidationError::StagingUsageMismatch)));
}

#[test]
fn completion_codes_map_to_success_or_map_failure() {
    assert_eq!(accept_code(MAP_SUCCESS), Ok(()));
    assert_eq!(accept_code(1), Err(ReadbackError::MapFailed));
    assert_eq!(accept_code(u64::MAX), Err(ReadbackError::MapFailed));
}
