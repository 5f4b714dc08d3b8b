use vstd::prelude::*;

use crate::action::{CommandPacket, ActionActor, ActionContext, ActionError, ActionResponse, ActionResult};
use crate::channel::Channel;
use crate::common::{ID, Version};
use crate::engine::{Engine, Touched};
use crate::helpers::get_channel;

verus! {

#[derive(PartialEq, Eq, Structural, Clone, Debug)]
pub struct SetLoggableResponse {}

/// Admin or system action: set whether a channel is loggable.
#[derive(PartialEq, Eq, Structural, Clone, Debug)]
pub struct SetLoggable {
    pub channel_id: ID,
    pub loggable: bool,
}

impl SetLoggable {
    /// What the handler does besides answering: its effect on the engine (from `e0` to
    /// `e1`) and on the commands (from `c0` to `c1`), given its answer `r`.
    pub open spec fn effect(
        &self,
        e0: Engine,
        e1: Engine,
        c0: Seq<CommandPacket>,
        c1: Seq<CommandPacket>,
        actor: ActionActor,
        mutate: bool,
        r: ActionResult,
    ) -> bool {
        &&& (e1.wf())
        &&& (c1 =~= c0)
        &&& (e1.only_touches(e0, Touched { channels: true, ..Touched::nothing() }))
        &&& (!mutate || r is Err ==> e1.unchanged(e0))
        &&& (mutate && r is Ok ==> {
            let id = self.channel_id;
            &&& e1.world.channels@ =~= e0.world.channels@.insert(id, e1.world.channels@[id])
            &&& e1.world.channels@[id] == (Channel { loggable: self.loggable, ..e0.world.channels@[id] })
        })
    }

    /// The answer to a request from `actor`, from the engine before (`e0`) and after (`e1`)
    /// the handler runs.
    pub open spec fn answer(&self, e0: Engine, e1: Engine, actor: ActionActor, mutate: bool) -> ActionResult {
        if !actor.is_admin_or_system() {
            Err::<ActionResponse, ActionError>(ActionError::RequiresAdminOrSystem)
        } else if !e0.world.channels@.contains_key(self.channel_id) {
            Err(ActionError::ChannelNotFound)
        } else {
            Ok(ActionResponse::SetLoggable(SetLoggableResponse {}))
        }
    }

    pub fn handle(
        &mut self,
        eng: &mut Engine,
        ctx: &mut ActionContext,
        actor: &ActionActor,
        version: Version,
        mutate: bool,
    ) -> (r: ActionResult)
        requires
            old(eng).wf(),
        ensures
            final(eng).wf(),
            *final(self) == *old(self),
            final(ctx).commands@ == old(ctx).commands@,
            final(eng).only_touches(*old(eng), Touched { channels: true, ..Touched::nothing() }),
            !mutate || r is Err ==> final(eng).unchanged(*old(eng)),
            r == old(self).answer(*old(eng), *final(eng), *actor, mutate),
            mutate && r is Ok ==> {
                let id = old(self).channel_id;
                &&& final(eng).world.channels@ == old(eng).world.channels@.insert(id, final(eng).world.channels@[id])
                &&& final(eng).world.channels@[id] == (Channel { loggable: old(self).loggable, ..old(eng).world.channels@[id] })
            },
            old(self).effect(*old(eng), *final(eng), old(ctx).commands@, final(ctx).commands@, *actor, mutate, r),
    {
        actor.admin_or_system()?;
        let _ = get_channel(eng, self.channel_id)?;
        if mutate {
            let mut channel: Channel = eng.world.channels.take(self.channel_id).unwrap();
            channel.loggable = self.loggable;
            eng.world.channels.put(self.channel_id, channel);
        }
        Ok(ActionResponse::SetLoggable(SetLoggableResponse {}))
    }
}

} // verus!
