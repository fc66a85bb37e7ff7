use rust_roller::service::transform::BodyPoll;
use rust_roller::service::transform::Emit;
use rust_roller::service::transform::Transform;
use rust_roller::service::transform::TransformState;

#[test]
fn new_transform_is_buffering() {
    let transform = Transform::new(b"MARK".to_vec(), b"X".to_vec());
    assert_eq!(transform.state(), TransformState::Buffering);
    assert!(transform.is_buffering());
    assert_eq!(transform.marker(), b"MARK");
    assert_eq!(transform.inject(), b"X");
}

#[test]
fn pending_body_yields_nothing_and_keeps_buffering() {
    let mut transform = Transform::new(b"MARK".to_vec(), b"X".to_vec());
    assert_eq!(transform.poll(BodyPoll::Pending), Emit::NotReady);
    assert_eq!(transform.poll(BodyPoll::Pending), Emit::NotReady);
    assert!(transform.is_buffering());
}

#[test]
fn complete_body_yields_one_spliced_chunk_then_the_end() {
    let mut transform = Transform::new(b"MARK".to_vec(), b"X".to_vec());
    assert_eq!(transform.poll(BodyPoll::Pending), Emit::NotReady);
    let emitted = transform.poll(BodyPoll::Complete(b"<html><head>MARK</head></html>".to_vec()));
    assert_eq!(emitted, Emit::Chunk(b"<html><head>XMARK</head></html>".to_vec()));
    assert_eq!(transform.state(), TransformState::Done);
    assert!(!transform.is_buffering());
    assert_eq!(transform.poll(BodyPoll::Pending), Emit::End);
    assert_eq!(transform.poll(BodyPoll::Pending), Emit::End);
}

#[test]
fn body_without_marker_is_yielded_unchanged() {
    let mut transform = Transform::new(b"MARK".to_vec(), b"X".to_vec());
    let emitted = transform.poll(BodyPoll::Complete(b"plain".to_vec()));
    assert_eq!(emitted, Emit::Chunk(b"plain".to_vec()));
    assert_eq!(transform.poll(BodyPoll::Pending), Emit::End);
}

#[test]
fn failed_body_yields_an_empty_chunk_then_the_end() {
    let mut transform = Transform::new(b"MARK".to_vec(), b"X".to_vec());
    assert_eq!(transform.poll(BodyPoll::Failed), Emit::Chunk(Vec::new()));
    assert_eq!(transform.state(), TransformState::Done);
    assert_eq!(transform.poll(BodyPoll::Pending), Emit::End);
}

#[test]
fn done_transform_ignores_what_is_reported() {
    let mut transform = Transform::new(b"MARK".to_vec(), b"X".to_vec());
    assert_eq!(transform.poll(BodyPoll::Complete(b"MARK".to_vec())), Emit::Chunk(b"XMARK".to_vec()));
    assert_eq!(transform.poll(BodyPoll::Complete(b"MARK".to_vec())), Emit::End);
    assert_eq!(transform.poll(BodyPoll::Failed), Emit::End);
    assert_eq!(transform.poll(BodyPoll::Pending), Emit::End);
    assert_eq!(transform.state(), TransformState::Done);
    assert_eq!(transform.marker(), b"MARK");
    assert_eq!(transform.inject(), b"X");
}

#[test]
fn at_most_one_chunk_in_a_run() {
    let events = vec![
        BodyPoll::Pending,
        BodyPoll::Pending,
        BodyPoll::Complete(b"aMARKb".to_vec()),
        BodyPoll::Pending,
        BodyPoll::Failed,
        BodyPoll::Complete(b"MARK".to_vec()),
    ];
    let mut transform = Transform::new(b"MARK".to_vec(), b"--".to_vec());
    let mut emitted = Vec::new();
    for event in events {
        emitted.push(transform.poll(event));
    }
    assert_eq!(
        emitted,
        vec![
            Emit::NotReady,
            Emit::NotReady,
            Emit::Chunk(b"a--MARKb".to_vec()),
            Emit::End,
            Emit::End,
            Emit::End,
        ]
    );
}
