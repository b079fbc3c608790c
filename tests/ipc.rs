use vrclipboard_ime::ipc::{
    bootstrap_line, on_reply, parse_bootstrap_line, request_messages, ConversionServer,
    IpcMessage, ReplyStep, WorkerAction, WorkerSlot,
};
use vrclipboard_ime::processing::post_process_candidates;
use vrclipboard_ime::session::CandidateQuery;

#[test]
fn bootstrap_line_round_trip() {
    assert_eq!(bootstrap_line("testchannel"), "$testchannel$");
    assert_eq!(parse_bootstrap_line("$testchannel$"), Some("testchannel".to_string()));
    assert_eq!(parse_bootstrap_line(&bootstrap_line("")), Some(String::new()));
}

#[test]
fn other_lines_are_not_bootstrap_lines() {
    assert_eq!(parse_bootstrap_line("Extract path: /tmp"), None);
    assert_eq!(parse_bootstrap_line("$"), None);
    assert_eq!(parse_bootstrap_line("$half"), None);
    assert_eq!(parse_bootstrap_line(""), None);
}

#[test]
fn worker_bootstrap_then_one_request() {
    // The worker logs, then prints its bootstrap line.
    let output = ["loading dictionary", "$testchannel$"];
    let address = output.iter().find_map(|line| parse_bootstrap_line(line));
    assert_eq!(address, Some("testchannel".to_string()));

    // The worker learns where to reply, then serves one query.
    let mut worker: ConversionServer<u32> = ConversionServer::new();
    assert!(matches!(worker.handle(Some(IpcMessage::Start)), WorkerAction::Ignore));
    assert!(matches!(worker.handle(Some(IpcMessage::Sender(7))), WorkerAction::Ignore));
    assert_eq!(worker.sender(), Some(&7));
    let query = CandidateQuery { text: "henkan".to_string(), context: String::new() };
    let mut replies = Vec::new();
    for message in request_messages::<u32>(&query) {
        match worker.handle(Some(message)) {
            WorkerAction::ResetComposingText => {}
            WorkerAction::Insert(text) => assert_eq!(text, "henkann§"),
            WorkerAction::Request { context, reply } => {
                assert_eq!(context, "");
                assert!(reply);
                let engine = vec!["変換§".to_string(), "返還§".to_string()];
                replies.push(IpcMessage::<u32>::Candidates(post_process_candidates(engine)));
            }
            _ => panic!("unexpected action"),
        }
    }

    // The host reads exactly one reply.
    let mut reads = 0;
    let mut delivered = None;
    for message in replies {
        reads += 1;
        if let ReplyStep::Deliver(c) = on_reply(Some(message)) {
            delivered = Some(c);
            break;
        }
    }
    assert_eq!(reads, 1);
    assert_eq!(delivered, Some(vec!["変換".to_string(), "返還".to_string()]));
}

#[test]
fn request_without_reply_channel_is_not_answered() {
    let mut worker: ConversionServer<u32> = ConversionServer::new();
    match worker.handle(Some(IpcMessage::RequestCandidates("ctx".to_string()))) {
        WorkerAction::Request { context, reply } => {
            assert_eq!(context, "ctx");
            assert!(!reply);
        }
        _ => panic!("expected a request"),
    }
}

#[test]
fn worker_stops_on_end_or_failed_channel() {
    let mut worker: ConversionServer<u32> = ConversionServer::new();
    assert!(matches!(worker.handle(Some(IpcMessage::End)), WorkerAction::Stop));
    assert!(matches!(worker.handle(None), WorkerAction::Stop));
    assert!(matches!(
        worker.handle(Some(IpcMessage::Candidates(Vec::new()))),
        WorkerAction::Ignore
    ));
}

#[test]
fn host_discards_unrelated_messages_and_ends_on_failure() {
    assert!(matches!(on_reply::<u32>(Some(IpcMessage::Start)), ReplyStep::KeepWaiting));
    assert!(matches!(on_reply::<u32>(Some(IpcMessage::End)), ReplyStep::KeepWaiting));
    match on_reply::<u32>(None) {
        ReplyStep::Deliver(c) => assert!(c.is_empty()),
        ReplyStep::KeepWaiting => panic!("a failed channel must end the wait"),
    }
}

#[test]
fn request_messages_form_one_composing_episode() {
    let query = CandidateQuery { text: "kanji".to_string(), context: "watashi".to_string() };
    let m = request_messages::<u32>(&query);
    assert!(matches!(m[0], IpcMessage::ResetComposingText));
    assert!(matches!(&m[1], IpcMessage::InsertAtCursorPosition(t) if t == "kanji"));
    assert!(matches!(&m[2], IpcMessage::RequestCandidates(c) if c == "watashi"));
}

#[test]
fn worker_slot_shuts_down_once() {
    let mut slot: WorkerSlot<&str> = WorkerSlot::new();
    assert_eq!(slot.take_for_shutdown(), None);
    slot.install("child");
    assert_eq!(slot.take_for_shutdown(), Some("child"));
    assert_eq!(slot.take_for_shutdown(), None);
}
