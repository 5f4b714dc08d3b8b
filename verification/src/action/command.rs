use vstd::prelude::*;

use indexmap::IndexSet;

use crate::channel::{ChannelPermissions, SenderDisplay};
use crate::common::{BugKey, ChannelKey, ID};
use crate::config::Role;

verus! {

/// An instruction for the frontend.
#[derive(Debug)]
pub enum Command {
    AnnounceDeath {
        true_name: String,
        death_message: String,
        role: Role,
        notebook_transferred: bool,
        ability_transferred: bool,
    },
    ArchiveBug { bug_key: BugKey },
    DeleteBug { bug_id: BugKey },
    ClearBugVisibily { bug_id: BugKey },
    SetBugVisibility { bug_id: BugKey, visible: bool },
    DeleteChannel { channel_id: ChannelKey },
    AddMessage { content: String, channel_id: ChannelKey, sender_display: SenderDisplay },
    UpdateChannelView {
        channel_id: ChannelKey,
        displays: IndexSet<SenderDisplay>,
        perms: ChannelPermissions,
    },
    RemoveChannel { channel_id: ChannelKey },
    MapGc { gc_id: ID, channel_id: ChannelKey },
    GcOwnerStatus { gc_id: ID, owner: bool },
    MapLounge { lounge_id: ID, channel_id: ChannelKey },
}

} // verus!
