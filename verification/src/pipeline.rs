//! Forwarding pipeline: filters inbound messages, gates on recognition
//! confidence, and sequences download → recognize → forward → silent reply.
//!
//! The pipeline decides; the surrounding runtime performs each returned
//! action (wait for a message, download its media, run the recognizer,
//! forward, reply) and reports the outcome back as the next event. Only
//! photo messages that do not come from the output channel itself are
//! taken up, which prevents forwarding loops against the agent's own
//! output. The forward always happens before the annotation reply; a
//! failed download, forward or reply aborts the pipeline so the supervisor
//! can back off and reconnect, while a failed recognition only skips the
//! single message.

use vstd::prelude::*;

verus! {

/// The confidence score (inclusive) at which recognized text is considered
/// reliable enough to forward.
pub const CONFIDENCE_THRESHOLD: i32 = 10;

/// What kind of media an inbound message carries.
#[derive(Clone, Copy, Debug, PartialEq, Eq, Structural)]
pub enum MediaKind {
    Photo,
    Other,
}

/// An inbound message as the runtime reports it.
#[derive(Clone, Debug)]
pub struct InboundMessage {
    pub source_chat_id: i64,
    pub author_name: Option<String>,
    pub media_present: bool,
    pub media_kind: MediaKind,
}

/// Whether the pipeline takes a message up: it must carry photo media and
/// must not come from the output channel itself.
pub open spec fn spec_accepts(msg: InboundMessage, output_channel_id: i64) -> bool {
    msg.media_present && msg.media_kind == MediaKind::Photo && msg.source_chat_id
        != output_channel_id
}

/// Message filter. A message from the output channel itself is never
/// accepted, whatever media it carries.
pub fn accepts_message(msg: &InboundMessage, output_channel_id: i64) -> (r: bool)
    ensures
        r == spec_accepts(*msg, output_channel_id),
{
    msg.media_present && msg.media_kind == MediaKind::Photo && msg.source_chat_id
        != output_channel_id
}

/// Why a message was dropped.
#[derive(Clone, Copy, Debug, PartialEq, Eq, Structural)]
pub enum SkipReason {
    /// The recognizer's mean confidence fell below the threshold.
    LowConfidence,
    /// The recognizer itself failed on this message.
    RecognitionFailed,
}

/// What to do with a recognized message.
#[derive(Clone, Debug)]
pub enum ForwardDecision {
    Skip { reason: SkipReason },
    Forward { text: String },
}

/// The confidence gate: text below the threshold is dropped, text at or
/// above it is forwarded unaltered.
pub fn decide_forward(text: String, mean_confidence: i32) -> (d: ForwardDecision)
    ensures
        mean_confidence < CONFIDENCE_THRESHOLD ==> d == (ForwardDecision::Skip {
            reason: SkipReason::LowConfidence,
        }),
        mean_confidence >= CONFIDENCE_THRESHOLD ==> (d matches ForwardDecision::Forward { text: t }
            && t@ == text@),
{
    if mean_confidence < CONFIDENCE_THRESHOLD {
        ForwardDecision::Skip { reason: SkipReason::LowConfidence }
    } else {
        ForwardDecision::Forward { text }
    }
}

/// Where the pipeline stands with the message in flight.
#[derive(Clone, Debug)]
pub enum PipelineState {
    /// Waiting for the next acceptable inbound message.
    Waiting,
    /// The accepted message's media is being downloaded.
    Downloading,
    /// The recognizer is running on the downloaded bytes.
    Recognizing,
    /// The message is being forwarded; the recognized text rides along for
    /// the annotation reply.
    Forwarding { text: String },
    /// The silent reply with the recognized text is being posted to the
    /// forwarded copy.
    Replying { text: String },
    /// A failure propagated out; the supervisor takes over.
    Aborted,
}

/// Outcomes that the runtime reports back to the pipeline.
pub enum PipelineEvent {
    /// The next inbound message arrived.
    MessageArrived { message: InboundMessage },
    /// The media bytes were downloaded in full.
    MediaDownloaded,
    /// Downloading the media failed.
    DownloadFailed,
    /// The recognizer returned text and its mean confidence (0 to 100).
    Recognized { text: String, mean_confidence: i32 },
    /// The recognizer failed on this message.
    RecognitionFailed,
    /// The original message was forwarded into the output channel.
    ForwardSucceeded,
    /// Forwarding failed.
    ForwardFailed,
    /// The silent annotation reply was posted to the forwarded copy.
    ReplySucceeded,
    /// Posting the reply failed; the forwarded copy stays unannotated.
    ReplyFailed,
}

/// What the runtime must do next.
#[derive(Clone, Debug)]
pub enum PipelineAction {
    /// Block until the next inbound message and report it.
    AwaitMessage,
    /// Download the accepted message's media in full.
    DownloadMedia,
    /// Run the recognizer on the downloaded bytes.
    RecognizeText,
    /// Forward the original message, unaltered, into the output channel.
    ForwardMessage,
    /// Post a silent (non-notifying) reply with this text to the forwarded
    /// copy.
    PostSilentReply { text: String },
    /// Drop the message for this reason and wait for the next one.
    SkipMessage { reason: SkipReason },
    /// Propagate the failure to the supervisor.
    Abort,
    /// The event did not apply to the current state; do nothing.
    Ignore,
}

/// Whether an event is an answer to what the pipeline is waiting for in
/// this state.
pub open spec fn spec_event_applies(s: PipelineState, e: PipelineEvent) -> bool {
    match e {
        PipelineEvent::MessageArrived { .. } => s is Waiting,
        PipelineEvent::MediaDownloaded => s is Downloading,
        PipelineEvent::DownloadFailed => s is Downloading,
        PipelineEvent::Recognized { .. } => s is Recognizing,
        PipelineEvent::RecognitionFailed => s is Recognizing,
        PipelineEvent::ForwardSucceeded => s is Forwarding,
        PipelineEvent::ForwardFailed => s is Forwarding,
        PipelineEvent::ReplySucceeded => s is Replying,
        PipelineEvent::ReplyFailed => s is Replying,
    }
}

/// The pipeline: the resolved output channel's id and where the message in
/// flight stands.
pub struct ForwardingPipeline {
    pub output_channel_id: i64,
    pub state: PipelineState,
}

impl ForwardingPipeline {
    /// A fresh pipeline bound to the resolved output channel, waiting for
    /// the first message.
    pub fn new(output_channel_id: i64) -> (p: Self)
        ensures
            p.output_channel_id == output_channel_id,
            p.state is Waiting,
    {
        ForwardingPipeline { output_channel_id, state: PipelineState::Waiting }
    }

    /// Feeds one event to the pipeline and returns the action the runtime
    /// must perform next.
    ///
    /// The contract pins the whole per-message sequence: only an accepted
    /// message (photo media, not from the output channel) starts a
    /// download — in particular a message whose source chat is the output
    /// channel itself is answered by waiting again, never by a forward;
    /// recognized text below the confidence gate skips the message and
    /// text at or above it is forwarded; the forward strictly precedes the
    /// silent reply, which carries exactly the recognized text; a download,
    /// forward or reply failure aborts so the supervisor backs off, and a
    /// recognition failure only skips the message.
    pub fn step(&mut self, e: PipelineEvent) -> (a: PipelineAction)
        ensures
            final(self).output_channel_id == old(self).output_channel_id,
            e matches PipelineEvent::MessageArrived { message } ==> (old(self).state is Waiting
                ==> {
                &&& spec_accepts(message, old(self).output_channel_id) ==> final(self).state
                    is Downloading && a is DownloadMedia
                &&& !spec_accepts(message, old(self).output_channel_id) ==> final(self).state
                    is Waiting && a is AwaitMessage
            }),
            e matches PipelineEvent::MediaDownloaded ==> (old(self).state is Downloading ==> final(self).state is Recognizing && a is RecognizeText),
            e matches PipelineEvent::DownloadFailed ==> (old(self).state is Downloading ==> final(self).state is Aborted && a is Abort),
            e matches PipelineEvent::Recognized { text, mean_confidence } ==> (old(self).state
                is Recognizing ==> {
                &&& mean_confidence < CONFIDENCE_THRESHOLD ==> final(self).state is Waiting && a
                    == (PipelineAction::SkipMessage { reason: SkipReason::LowConfidence })
                &&& mean_confidence >= CONFIDENCE_THRESHOLD ==> {
                    &&& final(self).state matches PipelineState::Forwarding { text: t } && t@
                        == text@
                    &&& a is ForwardMessage
                }
            }),
            e matches PipelineEvent::RecognitionFailed ==> (old(self).state is Recognizing ==> final(self).state is Waiting && a == (PipelineAction::SkipMessage {
                reason: SkipReason::RecognitionFailed,
            })),
            e matches PipelineEvent::ForwardSucceeded ==> (old(self).state matches
                PipelineState::Forwarding { text } ==> {
                &&& final(self).state matches PipelineState::Replying { text: t } && t@ == text@
                &&& a matches PipelineAction::PostSilentReply { text: t2 } && t2@ == text@
            }),
            e matches PipelineEvent::ForwardFailed ==> (old(self).state is Forwarding ==> final(self).state is Aborted && a is Abort),
            e matches PipelineEvent::ReplySucceeded ==> (old(self).state is Replying ==> final(self).state is Waiting && a is AwaitMessage),
            e matches PipelineEvent::ReplyFailed ==> (old(self).state is Replying ==> final(self).state is Aborted && a is Abort),
            !spec_event_applies(old(self).state, e) ==> final(self).state == old(self).state && a
                is Ignore,
    {
        match e {
            PipelineEvent::MessageArrived { message } => {
                if matches!(self.state, PipelineState::Waiting) {
                    if accepts_message(&message, self.output_channel_id) {
                        self.state = PipelineState::Downloading;
                        PipelineAction::DownloadMedia
                    } else {
                        self.state = PipelineState::Waiting;
                        PipelineAction::AwaitMessage
                    }
                } else {
                    PipelineAction::Ignore
                }
            },
            PipelineEvent::MediaDownloaded => {
                if matches!(self.state, PipelineState::Downloading) {
                    self.state = PipelineState::Recognizing;
                    PipelineAction::RecognizeText
                } else {
                    PipelineAction::Ignore
                }
            },
            PipelineEvent::DownloadFailed => {
                if matches!(self.state, PipelineState::Downloading) {
                    self.state = PipelineState::Aborted;
                    PipelineAction::Abort
                } else {
                    PipelineAction::Ignore
                }
            },
            PipelineEvent::Recognized { text, mean_confidence } => {
                if matches!(self.state, PipelineState::Recognizing) {
                    match decide_forward(text, mean_confidence) {
                        ForwardDecision::Skip { reason } => {
                            self.state = PipelineState::Waiting;
                            PipelineAction::SkipMessage { reason }
                        },
                        ForwardDecision::Forward { text } => {
                            self.state = PipelineState::Forwarding { text };
                            PipelineAction::ForwardMessage
                        },
                    }
                } else {
                    PipelineAction::Ignore
                }
            },
            PipelineEvent::RecognitionFailed => {
                if matches!(self.state, PipelineState::Recognizing) {
                    self.state = PipelineState::Waiting;
                    PipelineAction::SkipMessage { reason: SkipReason::RecognitionFailed }
                } else {
                    PipelineAction::Ignore
                }
            },
            PipelineEvent::ForwardSucceeded => {
                match &self.state {
                    PipelineState::Forwarding { text } => {
                        let t = text.clone();
                        self.state = PipelineState::Replying { text: t.clone() };
                        PipelineAction::PostSilentReply { text: t }
                    },
                    _ => PipelineAction::Ignore,
                }
            },
            PipelineEvent::ForwardFailed => {
                if matches!(self.state, PipelineState::Forwarding { .. }) {
                    self.state = PipelineState::Aborted;
                    PipelineAction::Abort
                } else {
                    PipelineAction::Ignore
                }
            },
            PipelineEvent::ReplySucceeded => {
                if matches!(self.state, PipelineState::Replying { .. }) {
                    self.state = PipelineState::Waiting;
                    PipelineAction::AwaitMessage
                } else {
                    PipelineAction::Ignore
                }
            },
            PipelineEvent::ReplyFailed => {
                if matches!(self.state, PipelineState::Replying { .. }) {
                    self.state = PipelineState::Aborted;
                    PipelineAction::Abort
                } else {
                    PipelineAction::Ignore
                }
            },
        }
    }
}

/// Output-loop prevention law: a message whose source chat is the output
/// channel itself is never accepted for forwarding, even when it carries
/// photo media.
pub proof fn lemma_no_output_loop(msg: InboundMessage, output_channel_id: i64)
    requires
        msg.source_chat_id == output_channel_id,
    ensures
        !spec_accepts(msg, output_channel_id),
{
}

} // verus!
