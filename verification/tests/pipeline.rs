use image_search::pipeline::{
    accepts_message, decide_forward, ForwardDecision, ForwardingPipeline, InboundMessage,
    MediaKind, PipelineAction, PipelineEvent, SkipReason, CONFIDENCE_THRESHOLD,
};

fn photo_message(source_chat_id: i64) -> InboundMessage {
    InboundMessage {
        source_chat_id,
        author_name: None,
        media_present: true,
        media_kind: MediaKind::Photo,
    }
}

#[test]
fn output_channel_message_is_never_selected() {
    // A photo message whose source chat is the output channel itself.
    let msg = photo_message(9);
    assert!(!accepts_message(&msg, 9));
    let mut p = ForwardingPipeline::new(9);
    let a = p.step(PipelineEvent::MessageArrived { message: msg });
    assert!(matches!(a, PipelineAction::AwaitMessage));
}

#[test]
fn non_photo_messages_are_not_selected() {
    let mut msg = photo_message(5);
    msg.media_kind = MediaKind::Other;
    assert!(!accepts_message(&msg, 9));
    let mut no_media = photo_message(5);
    no_media.media_present = false;
    assert!(!accepts_message(&no_media, 9));
    assert!(accepts_message(&photo_message(5), 9));
}

#[test]
fn confidence_gate_boundary() {
    assert_eq!(CONFIDENCE_THRESHOLD, 10);
    match decide_forward("x".to_string(), 9) {
        ForwardDecision::Skip { reason } => assert_eq!(reason, SkipReason::LowConfidence),
        ForwardDecision::Forward { .. } => panic!("confidence 9 must skip"),
    }
    match decide_forward("x".to_string(), 10) {
        ForwardDecision::Forward { text } => assert_eq!(text, "x"),
        ForwardDecision::Skip { .. } => panic!("confidence 10 must forward"),
    }
}

#[test]
fn confident_recognition_is_forwarded_with_silent_reply() {
    // Inbound photo message from chat id 5 ("News"); output channel id 9 is
    // already resolved; the recognizer reads "SALE 50%" at confidence 87.
    let mut p = ForwardingPipeline::new(9);
    let a = p.step(PipelineEvent::MessageArrived { message: photo_message(5) });
    assert!(matches!(a, PipelineAction::DownloadMedia));
    let a = p.step(PipelineEvent::MediaDownloaded);
    assert!(matches!(a, PipelineAction::RecognizeText));
    let a = p.step(PipelineEvent::Recognized {
        text: "SALE 50%".to_string(),
        mean_confidence: 87,
    });
    // The forward of the original message comes first...
    assert!(matches!(a, PipelineAction::ForwardMessage));
    // ...and only a successful forward triggers the silent annotation reply
    // carrying exactly the recognized text.
    let a = p.step(PipelineEvent::ForwardSucceeded);
    match a {
        PipelineAction::PostSilentReply { text } => assert_eq!(text, "SALE 50%"),
        other => panic!("expected the silent reply, got {:?}", other),
    }
    let a = p.step(PipelineEvent::ReplySucceeded);
    assert!(matches!(a, PipelineAction::AwaitMessage));
}

#[test]
fn low_confidence_recognition_is_skipped() {
    // Same setup, but the recognizer returns ("", 3): no forward, no reply,
    // the message is dropped as low-confidence.
    let mut p = ForwardingPipeline::new(9);
    let a = p.step(PipelineEvent::MessageArrived { message: photo_message(5) });
    assert!(matches!(a, PipelineAction::DownloadMedia));
    let a = p.step(PipelineEvent::MediaDownloaded);
    assert!(matches!(a, PipelineAction::RecognizeText));
    let a = p.step(PipelineEvent::Recognized { text: "".to_string(), mean_confidence: 3 });
    match a {
        PipelineAction::SkipMessage { reason } => assert_eq!(reason, SkipReason::LowConfidence),
        other => panic!("expected a low-confidence skip, got {:?}", other),
    }
    // The pipeline is back to waiting; the next acceptable message starts a
    // fresh download, proving no forward is pending.
    let a = p.step(PipelineEvent::MessageArrived { message: photo_message(5) });
    assert!(matches!(a, PipelineAction::DownloadMedia));
}

#[test]
fn recognizer_failure_skips_only_the_message() {
    let mut p = ForwardingPipeline::new(9);
    p.step(PipelineEvent::MessageArrived { message: photo_message(5) });
    p.step(PipelineEvent::MediaDownloaded);
    let a = p.step(PipelineEvent::RecognitionFailed);
    match a {
        PipelineAction::SkipMessage { reason } => {
            assert_eq!(reason, SkipReason::RecognitionFailed)
        },
        other => panic!("expected a skip, got {:?}", other),
    }
    let a = p.step(PipelineEvent::MessageArrived { message: photo_message(5) });
    assert!(matches!(a, PipelineAction::DownloadMedia));
}

#[test]
fn download_failure_aborts_the_pipeline() {
    let mut p = ForwardingPipeline::new(9);
    p.step(PipelineEvent::MessageArrived { message: photo_message(5) });
    let a = p.step(PipelineEvent::DownloadFailed);
    assert!(matches!(a, PipelineAction::Abort));
}

#[test]
fn forward_and_reply_failures_abort_the_pipeline() {
    let mut p = ForwardingPipeline::new(9);
    p.step(PipelineEvent::MessageArrived { message: photo_message(5) });
    p.step(PipelineEvent::MediaDownloaded);
    p.step(PipelineEvent::Recognized { text: "t".to_string(), mean_confidence: 50 });
    let a = p.step(PipelineEvent::ForwardFailed);
    assert!(matches!(a, PipelineAction::Abort));

    let mut p = ForwardingPipeline::new(9);
    p.step(PipelineEvent::MessageArrived { message: photo_message(5) });
    p.step(PipelineEvent::MediaDownloaded);
    p.step(PipelineEvent::Recognized { text: "t".to_string(), mean_confidence: 50 });
    p.step(PipelineEvent::ForwardSucceeded);
    let a = p.step(PipelineEvent::ReplyFailed);
    assert!(matches!(a, PipelineAction::Abort));
}
