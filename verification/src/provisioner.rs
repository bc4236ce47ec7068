//! Channel provisioner: idempotently resolves or creates the output channel.
//!
//! The provisioner decides; the surrounding runtime performs each returned
//! action (list the joined dialogs, issue a channel-creation request, look a
//! channel up by id) and reports the outcome back as the next event. A
//! channel whose title already matches is reused, so no second creation
//! request is ever issued for an existing title; on any error the whole
//! sequence restarts from the search, immediately and indefinitely.

use vstd::prelude::*;

verus! {

/// A joined conversation as the runtime reports it: its id, its title and
/// whether it is a channel.
#[derive(Clone, Debug)]
pub struct ChatSummary {
    pub id: i64,
    pub title: String,
    pub is_channel: bool,
}

/// Whether `chat` is a channel carrying exactly the wanted title.
pub open spec fn title_matches(chat: ChatSummary, title: Seq<char>) -> bool {
    chat.is_channel && chat.title@ == title
}

/// Whether some chat in `dialogs` is a channel with the wanted title.
pub open spec fn has_channel_titled(dialogs: Seq<ChatSummary>, title: Seq<char>) -> bool {
    exists|j: int| 0 <= j < dialogs.len() && #[trigger] title_matches(dialogs[j], title)
}

/// Finds the first channel in `dialogs` whose title is exactly `title`.
pub fn find_channel_by_title(dialogs: &Vec<ChatSummary>, title: &String) -> (r: Option<usize>)
    ensures
        match r {
            Some(i) => i < dialogs@.len() && title_matches(dialogs@[i as int], title@) && forall|
                j: int,
            | 0 <= j < i ==> !title_matches(dialogs@[j], title@),
            None => !has_channel_titled(dialogs@, title@),
        },
{
    let mut i: usize = 0;
    while i < dialogs.len()
        invariant
            i <= dialogs@.len(),
            forall|j: int| 0 <= j < i ==> !title_matches(dialogs@[j], title@),
        decreases dialogs@.len() - i,
    {
        let d = &dialogs[i];
        if d.is_channel && d.title == *title {
            return Some(i);
        }
        i = i + 1;
    }
    None
}

/// Finds the first channel in `dialogs` with the given id.
pub fn find_channel_by_id(dialogs: &Vec<ChatSummary>, id: i64) -> (r: Option<usize>)
    ensures
        match r {
            Some(i) => i < dialogs@.len() && dialogs@[i as int].is_channel && dialogs@[i
                as int].id == id && forall|j: int|
                0 <= j < i ==> !(#[trigger] dialogs@[j].is_channel && dialogs@[j].id == id),
            None => forall|j: int|
                0 <= j < dialogs@.len() ==> !(#[trigger] dialogs@[j].is_channel && dialogs@[j].id
                    == id),
        },
{
    let mut i: usize = 0;
    while i < dialogs.len()
        invariant
            i <= dialogs@.len(),
            forall|j: int|
                0 <= j < i ==> !(#[trigger] dialogs@[j].is_channel && dialogs@[j].id == id),
        decreases dialogs@.len() - i,
    {
        let d = &dialogs[i];
        if d.is_channel && d.id == id {
            return Some(i);
        }
        i = i + 1;
    }
    None
}

/// Picks the created channel's id out of the chats of a creation response:
/// the first chat, which must be a channel.
pub fn extract_created_id(chats: &Vec<ChatSummary>) -> (r: Option<i64>)
    ensures
        chats@.len() > 0 && chats@[0].is_channel ==> r == Some(chats@[0].id),
        !(chats@.len() > 0 && chats@[0].is_channel) ==> r is None,
{
    if chats.len() > 0 && chats[0].is_channel {
        Some(chats[0].id)
    } else {
        None
    }
}

/// Where the provisioner stands in the resolve-or-create sequence.
#[derive(Clone, Copy, Debug, PartialEq, Eq, Structural)]
pub enum ProvisionState {
    /// Looking for an existing channel with the wanted title.
    Searching,
    /// A creation request is out.
    Creating,
    /// The channel was created; re-resolving it by its id, since the
    /// creation response alone is not trusted as the canonical entity.
    Resolving { id: i64 },
    /// The output channel is resolved and cached for the rest of the run.
    Ready { id: i64 },
}

/// Outcomes that the runtime reports back to the provisioner.
pub enum ProvisionEvent {
    /// The joined dialogs were listed.
    DialogsListed { dialogs: Vec<ChatSummary> },
    /// The creation request came back with these chats in its response.
    CreateResponded { chats: Vec<ChatSummary> },
    /// The lookup of the created channel by id found it (or not) among the
    /// joined dialogs.
    Resolved { found: bool },
    /// Listing, creating or resolving failed.
    StepFailed,
}

/// What the runtime must do next.
#[derive(Clone, Copy, Debug, PartialEq, Eq, Structural)]
pub enum ProvisionAction {
    /// List the joined dialogs and report them.
    ListDialogs,
    /// Issue a channel-creation request (non-public, non-megagroup) with the
    /// provisioner's title and description.
    CreateChannel,
    /// Look the channel with this id up among the joined dialogs.
    ResolveById { id: i64 },
    /// The output channel is resolved; stop.
    Finish { id: i64 },
    /// The event did not apply to the current state; do nothing.
    Ignore,
}

/// Whether an event is an answer to what the provisioner is waiting for in
/// this state. A failure report applies everywhere.
pub open spec fn spec_event_applies(s: ProvisionState, e: ProvisionEvent) -> bool {
    match e {
        ProvisionEvent::DialogsListed { .. } => s is Searching,
        ProvisionEvent::CreateResponded { .. } => s is Creating,
        ProvisionEvent::Resolved { .. } => s is Resolving,
        ProvisionEvent::StepFailed => true,
    }
}

/// The provisioner: the wanted title and description, and where the
/// resolve-or-create sequence stands.
pub struct ChannelProvisioner {
    pub title: String,
    pub about: String,
    pub state: ProvisionState,
}

impl ChannelProvisioner {
    /// A fresh provisioner for a channel with this title and description,
    /// about to search the joined dialogs.
    pub fn new(title: String, about: String) -> (p: Self)
        ensures
            p.title@ == title@,
            p.about@ == about@,
            p.state == ProvisionState::Searching,
    {
        ChannelProvisioner { title, about, state: ProvisionState::Searching }
    }

    /// Feeds one event to the provisioner and returns the action the runtime
    /// must perform next.
    ///
    /// Idempotence: when the dialog list already holds a channel with the
    /// wanted title, the search finishes with the first such channel and no
    /// creation request is ever asked for. Only a list with no matching
    /// channel moves to `Creating`. Any failure restarts the search at once.
    pub fn step(&mut self, e: ProvisionEvent) -> (a: ProvisionAction)
        ensures
            final(self).title@ == old(self).title@,
            final(self).about@ == old(self).about@,
            e matches ProvisionEvent::DialogsListed { dialogs } ==> (old(self).state
                == ProvisionState::Searching ==> {
                &&& has_channel_titled(dialogs@, old(self).title@) ==> exists|i: int|
                    {
                        &&& 0 <= i < dialogs@.len()
                        &&& #[trigger] title_matches(dialogs@[i], old(self).title@)
                        &&& forall|j: int| 0 <= j < i ==> !title_matches(dialogs@[j], old(self).title@)
                        &&& final(self).state == (ProvisionState::Ready { id: dialogs@[i].id })
                        &&& a == (ProvisionAction::Finish { id: dialogs@[i].id })
                    }
                &&& !has_channel_titled(dialogs@, old(self).title@) ==> final(self).state
                    == ProvisionState::Creating && a == ProvisionAction::CreateChannel
            }),
            e matches ProvisionEvent::CreateResponded { chats } ==> (old(self).state
                == ProvisionState::Creating ==> {
                &&& chats@.len() > 0 && chats@[0].is_channel ==> final(self).state
                    == (ProvisionState::Resolving { id: chats@[0].id }) && a
                    == (ProvisionAction::ResolveById { id: chats@[0].id })
                &&& !(chats@.len() > 0 && chats@[0].is_channel) ==> final(self).state
                    == ProvisionState::Searching && a == ProvisionAction::ListDialogs
            }),
            e matches ProvisionEvent::Resolved { found } ==> (old(self).state matches
                ProvisionState::Resolving { id } ==> {
                &&& found ==> final(self).state == (ProvisionState::Ready { id }) && a
                    == (ProvisionAction::Finish { id })
                &&& !found ==> final(self).state == ProvisionState::Searching && a
                    == ProvisionAction::ListDialogs
            }),
            e matches ProvisionEvent::StepFailed ==> final(self).state
                == ProvisionState::Searching && a == ProvisionAction::ListDialogs,
            !spec_event_applies(old(self).state, e) ==> final(self).state == old(self).state && a
                == ProvisionAction::Ignore,
    {
        match e {
            ProvisionEvent::StepFailed => {
                self.state = ProvisionState::Searching;
                ProvisionAction::ListDialogs
            },
            ProvisionEvent::DialogsListed { dialogs } => {
                if self.state == ProvisionState::Searching {
                    match find_channel_by_title(&dialogs, &self.title) {
                        Some(i) => {
                            let id = dialogs[i].id;
                            self.state = ProvisionState::Ready { id };
                            ProvisionAction::Finish { id }
                        },
                        None => {
                            self.state = ProvisionState::Creating;
                            ProvisionAction::CreateChannel
                        },
                    }
                } else {
                    ProvisionAction::Ignore
                }
            },
            ProvisionEvent::CreateResponded { chats } => {
                if self.state == ProvisionState::Creating {
                    match extract_created_id(&chats) {
                        Some(id) => {
                            self.state = ProvisionState::Resolving { id };
                            ProvisionAction::ResolveById { id }
                        },
                        None => {
                            self.state = ProvisionState::Searching;
                            ProvisionAction::ListDialogs
                        },
                    }
                } else {
                    ProvisionAction::Ignore
                }
            },
            ProvisionEvent::Resolved { found } => {
                match self.state {
                    ProvisionState::Resolving { id } => {
                        if found {
                            self.state = ProvisionState::Ready { id };
                            ProvisionAction::Finish { id }
                        } else {
                            self.state = ProvisionState::Searching;
                            ProvisionAction::ListDialogs
                        }
                    },
                    _ => ProvisionAction::Ignore,
                }
            },
        }
    }
}

} // verus!
