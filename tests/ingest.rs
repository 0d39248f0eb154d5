use sub_writer::ingest::{ingest_step, IngestAction, IngestEvent, ACCEPT_FAILURE_EXIT};
use sub_writer::row::SubMessage;

#[test]
fn accept_failure_exits_with_distinct_status() {
    assert_eq!(ACCEPT_FAILURE_EXIT, 3);
    assert!(matches!(ingest_step(IngestEvent::AcceptFailed), IngestAction::Exit(3)));
}

#[test]
fn read_failure_moves_to_next_connection() {
    assert!(matches!(ingest_step(IngestEvent::ReadFailed), IngestAction::NextConnection));
}

#[test]
fn decode_failure_moves_to_next_connection() {
    assert!(matches!(ingest_step(IngestEvent::DecodeFailed), IngestAction::NextConnection));
    let next = ingest_step(IngestEvent::Decoded(SubMessage { ids: vec![4], subs: vec![40] }));
    match next {
        IngestAction::Forward(m) => {
            assert_eq!(m.ids, vec![4]);
            assert_eq!(m.subs, vec![40]);
        }
        _ => panic!("decoded message was not forwarded"),
    }
}
