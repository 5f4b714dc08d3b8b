use vstd::prelude::*;

use crate::action::command::Command;
use crate::action::comms::channel::create_channel::CreateChannel;
use crate::action::{ActionActor, ActionContext, ActionError, ActionResponse, ActionResult, CommandPacket};
use crate::common::{ID, Version};
use crate::engine::{Engine, Touched};
use crate::groupchat::Groupchat;

verus! {

#[derive(PartialEq, Eq, Structural, Clone, Debug)]
pub struct CreateGroupchatResponse {
    pub id: ID,
}

/// System action: create a group chat, without owner or members, over a new loggable
/// channel; the frontend learns of it.  A dry run answers with id 0.
#[derive(PartialEq, Eq, Structural, Clone, Debug)]
pub struct CreateGroupchat {}

impl CreateGroupchat {
    /// What the handler does besides answering: its effect on the engine (from `e0` to
    /// `e1`) and on the commands (from `c0` to `c1`), given its answer `r`.
    pub open spec fn effect(
        &self,
        e0: Engine,
        e1: Engine,
        c0: Seq<CommandPacket>,
        c1: Seq<CommandPacket>,
        actor: ActionActor,
        mutate: bool,
        r: ActionResult,
    ) -> bool {
        &&& (e1.wf())
        &&& (e1.only_touches(e0, Touched { channels: true, groupchats: true, ..Touched::nothing() }))
        &&& (!mutate || r is Err ==> e1.unchanged(e0))
        &&& (!mutate || r is Err ==> c1 =~= c0)
        &&& (mutate && r is Ok ==> {
            let g = e0.world.groupchats.next_key() as ID;
            let c = e0.world.channels.next_key() as ID;
            &&& g == e0.world.groupchats.next_key() && c == e0.world.channels.next_key()
            &&& e1.world.channels@ =~= e0.world.channels@.insert(c, e1.world.channels@[c])
            &&& e1.world.channels@[c].loggable
            &&& e1.world.channels@[c].members@.len() == 0
            &&& e1.world.groupchats@ =~= e0.world.groupchats@.insert(g, e1.world.groupchats@[g])
            &&& e1.world.groupchats@[g].channel_id == c
            &&& e1.world.groupchats@[g].owner is None
            &&& e1.world.groupchats@[g].members@.len() == 0
            &&& c1 =~= c0.push(CommandPacket {
                cmd: Command::MapGc { gc_id: g, channel_id: c },
                recipient: None,
                timestamp: e0.time,
            })
        })
    }

    /// The answer to a request from `actor`, from the engine before (`e0`) and after (`e1`)
    /// the handler runs.
    pub open spec fn answer(&self, e0: Engine, e1: Engine, actor: ActionActor, mutate: bool) -> ActionResult {
        if actor is System {
            Ok(ActionResponse::CreateGroupchat(CreateGroupchatResponse {
                id: if mutate { e0.world.groupchats.next_key() as ID } else { 0 },
            }))
        } else {
            Err::<ActionResponse, ActionError>(ActionError::RequiresSystem)
        }
    }

    pub fn handle(
        &mut self,
        eng: &mut Engine,
        ctx: &mut ActionContext,
        actor: &ActionActor,
        version: Version,
        mutate: bool,
    ) -> (r: ActionResult)
        requires
            old(eng).wf(),
        ensures
            final(eng).wf(),
            final(eng).only_touches(*old(eng), Touched { channels: true, groupchats: true, ..Touched::nothing() }),
            !mutate || r is Err ==> final(eng).unchanged(*old(eng)),
            r == old(self).answer(*old(eng), *final(eng), *actor, mutate),
            !mutate || r is Err ==> final(ctx).commands@ == old(ctx).commands@,
            mutate && r is Ok ==> {
                let g = old(eng).world.groupchats.next_key() as ID;
                let c = old(eng).world.channels.next_key() as ID;
                &&& g == old(eng).world.groupchats.next_key() && c == old(eng).world.channels.next_key()
                &&& final(eng).world.channels@ == old(eng).world.channels@.insert(c, final(eng).world.channels@[c])
                &&& final(eng).world.channels@[c].loggable
                &&& final(eng).world.channels@[c].members@.len() == 0
                &&& final(eng).world.groupchats@ == old(eng).world.groupchats@.insert(g, final(eng).world.groupchats@[g])
                &&& final(eng).world.groupchats@[g].channel_id == c
                &&& final(eng).world.groupchats@[g].owner is None
                &&& final(eng).world.groupchats@[g].members@.len() == 0
                &&& final(ctx).commands@ == old(ctx).commands@.push(CommandPacket {
                    cmd: Command::MapGc { gc_id: g, channel_id: c },
                    recipient: None,
                    timestamp: old(eng).time,
                })
            },
            old(self).effect(*old(eng), *final(eng), old(ctx).commands@, final(ctx).commands@, *actor, mutate, r),
    {
        actor.require_system()?;
        if !mutate {
            return Ok(ActionResponse::CreateGroupchat(CreateGroupchatResponse { id: 0 }));
        }
        let mut create = CreateChannel { loggable: true };
        let channel_id: ID = match create.handle(eng, ctx, actor, version, mutate) {
            Ok(ActionResponse::CreateChannel(data)) => data.id,
            _ => 0,
        };
        let id: ID = eng.world.groupchats.add(Groupchat::new(channel_id));
        ctx.push_cmd(Command::MapGc { gc_id: id, channel_id }, None, eng.time);
        Ok(ActionResponse::CreateGroupchat(CreateGroupchatResponse { id }))
    }
}

} // verus!
