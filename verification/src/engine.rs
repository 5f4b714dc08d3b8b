use vstd::prelude::*;

use crate::ability::Ability;
use crate::action::ActionRequest;
use crate::actor::{Actor, ActorType, OrgAbility, Organization, Player, LeadershipStruct};
use crate::bug::Bug;
use crate::channel::Channel;
use crate::chargepool::ChargePool;
use crate::common::{ID, Time};
use crate::config::{Config, OrganizationName, Role};
use crate::groupchat::Groupchat;
use crate::lounge::Lounge;
use crate::notebook::Notebook;
use crate::passive::Passive;
use crate::poll::Poll;
use crate::store::Store;
use crate::idset::without;
use crate::seqmap::without_key;

verus! {

/// Everything that exists in a game.
pub struct World {
    pub actors: Store<Actor>,
    pub abilities: Store<Ability>,
    pub charge_pools: Store<ChargePool>,
    pub passives: Store<Passive>,
    pub notebooks: Store<Notebook>,
    pub bugs: Store<Bug>,
    pub channels: Store<Channel>,
    pub groupchats: Store<Groupchat>,
    pub lounges: Store<Lounge>,
}

/// A world, the rules it runs by, the current time, the jobs scheduled for later, and the
/// polls under way.
pub struct Engine {
    pub world: World,
    pub config: Config,
    pub time: Time,
    pub jobs: Vec<ActionRequest>,
    pub polls: Store<Poll>,
}

/// Which parts of an engine an operation may change.
pub ghost struct Touched {
    pub actors: bool,
    pub abilities: bool,
    pub charge_pools: bool,
    pub passives: bool,
    pub notebooks: bool,
    pub bugs: bool,
    pub channels: bool,
    pub groupchats: bool,
    pub lounges: bool,
    pub jobs: bool,
    pub polls: bool,
}

impl Touched {
    pub open spec fn nothing() -> Touched {
        Touched {
            actors: false,
            abilities: false,
            charge_pools: false,
            passives: false,
            notebooks: false,
            bugs: false,
            channels: false,
            groupchats: false,
            lounges: false,
            jobs: false,
            polls: false,
        }
    }

    pub open spec fn everything() -> Touched {
        Touched {
            actors: true,
            abilities: true,
            charge_pools: true,
            passives: true,
            notebooks: true,
            bugs: true,
            channels: true,
            groupchats: true,
            lounges: true,
            jobs: true,
            polls: true,
        }
    }
}

/// Whether `id` is a player among `actors`.
pub open spec fn actor_is_player(actors: Map<ID, Actor>, id: ID) -> bool {
    actors.contains_key(id) && actors[id].actor_type is Player
}

/// If `a` is an organization, its members are players among `actors`.
pub open spec fn org_members_are_players(actors: Map<ID, Actor>, a: Actor) -> bool {
    a.actor_type matches ActorType::Organization(o) ==> forall|m: ID| #[trigger] o.members@.contains(m) ==> actor_is_player(actors, m)
}

/// `new` has the actors of `old`, each of the same type.
pub open spec fn same_actor_types(old: Map<ID, Actor>, new: Map<ID, Actor>) -> bool {
    &&& new.dom() == old.dom()
    &&& forall|k: ID| #[trigger] new.contains_key(k) ==> new[k].actor_type == old[k].actor_type
}

pub proof fn lemma_same_actor_types(old: Map<ID, Actor>, new: Map<ID, Actor>)
    requires
        same_actor_types(old, new),
    ensures
        forall|m: ID| #[trigger] actor_is_player(new, m) == actor_is_player(old, m),
        forall|k: ID| #[trigger] new.contains_key(k) ==> (org_members_are_players(new, new[k]) == org_members_are_players(old, old[k])),
{
    assert forall|m: ID| #[trigger] actor_is_player(new, m) == actor_is_player(old, m) by {
        if new.contains_key(m) {
            assert(new[m].actor_type == old[m].actor_type);
        }
    }
}

/// `new` is `old` with the ability list of actor `id` set to `list`.
pub open spec fn ability_list_set(old: Map<ID, Actor>, new: Map<ID, Actor>, id: ID, list: Seq<ID>) -> bool {
    &&& old.contains_key(id)
    &&& new == old.insert(id, new[id])
    &&& new[id] == (Actor { abilities: new[id].abilities, ..old[id] })
    &&& new[id].abilities@ == list
    &&& same_actor_types(old, new)
}

/// `new` is `old` with player `id` replaced by player `p` (the actor keeps all else).
pub open spec fn player_replaced(old: Map<ID, Actor>, new: Map<ID, Actor>, id: ID, p: Player) -> bool {
    &&& actor_is_player(old, id)
    &&& new == old.insert(id, Actor { actor_type: ActorType::Player(p), ..old[id] })
}

pub proof fn lemma_player_replaced(old: Map<ID, Actor>, new: Map<ID, Actor>, id: ID, p: Player)
    requires
        player_replaced(old, new, id, p),
    ensures
        new.dom() == old.dom(),
        forall|m: ID| #[trigger] actor_is_player(new, m) == actor_is_player(old, m),
        forall|k: ID| #[trigger] new.contains_key(k) ==> (org_members_are_players(new, new[k]) == org_members_are_players(old, old[k])),
{
    assert(new.dom() =~= old.dom());
    assert forall|m: ID| #[trigger] actor_is_player(new, m) == actor_is_player(old, m) by {}
    assert forall|k: ID| #[trigger] new.contains_key(k) implies (org_members_are_players(new, new[k]) == org_members_are_players(old, old[k])) by {
        if k != id {
            assert(new[k] == old[k]);
        }
    }
}

/// `new` is `old` with the passive list of actor `id` set to `list`.
pub open spec fn passive_list_set(old: Map<ID, Actor>, new: Map<ID, Actor>, id: ID, list: Seq<ID>) -> bool {
    &&& old.contains_key(id)
    &&& new == old.insert(id, new[id])
    &&& new[id] == (Actor { passives: new[id].passives, ..old[id] })
    &&& new[id].passives@ == list
    &&& same_actor_types(old, new)
}

/// `new` is `old` with organization `id` replaced by organization `o`, which has the
/// same members (the actor keeps all else).
pub open spec fn org_replaced(old: Map<ID, Actor>, new: Map<ID, Actor>, id: ID, o: Organization) -> bool {
    &&& old.contains_key(id)
    &&& old[id].actor_type is Organization
    &&& o.members == old[id].actor_type->Organization_0.members
    &&& new == old.insert(id, Actor { actor_type: ActorType::Organization(o), ..old[id] })
}

pub proof fn lemma_org_replaced(old: Map<ID, Actor>, new: Map<ID, Actor>, id: ID, o: Organization)
    requires
        org_replaced(old, new, id, o),
    ensures
        new.dom() == old.dom(),
        forall|m: ID| #[trigger] actor_is_player(new, m) == actor_is_player(old, m),
        forall|k: ID| #[trigger] new.contains_key(k) ==> (org_members_are_players(new, new[k]) == org_members_are_players(old, old[k])),
{
    assert(new.dom() =~= old.dom());
    assert forall|m: ID| #[trigger] actor_is_player(new, m) == actor_is_player(old, m) by {}
    assert forall|k: ID| #[trigger] new.contains_key(k) implies (org_members_are_players(new, new[k]) == org_members_are_players(old, old[k])) by {
        if k != id {
            assert(new[k] == old[k]);
        }
    }
}

/// `new` is `old` with the notebook list of actor `id` set to `list`.
pub open spec fn notebook_list_set(old: Map<ID, Actor>, new: Map<ID, Actor>, id: ID, list: Seq<ID>) -> bool {
    &&& old.contains_key(id)
    &&& new == old.insert(id, new[id])
    &&& new[id] == (Actor { notebooks: new[id].notebooks, ..old[id] })
    &&& new[id].notebooks@ == list
    &&& same_actor_types(old, new)
}

/// A list of ids with `id` added at the end unless it is there.
pub open spec fn id_inserted(l: Seq<ID>, id: ID) -> Seq<ID> {
    if l.contains(id) { l } else { l.push(id) }
}

/// Two stores hold the same objects and will hand out the same next key.
pub open spec fn same_store<V>(a: Store<V>, b: Store<V>) -> bool {
    a@ == b@ && a.next_key() == b.next_key()
}

impl World {
    pub fn new() -> (w: Self)
        ensures
            w.is_empty(),
            w.actors.next_key() == 0,
            w.abilities.next_key() == 0,
            w.charge_pools.next_key() == 0,
            w.passives.next_key() == 0,
            w.notebooks.next_key() == 0,
            w.bugs.next_key() == 0,
            w.channels.next_key() == 0,
            w.groupchats.next_key() == 0,
            w.lounges.next_key() == 0,
    {
        World {
            actors: Store::new(),
            abilities: Store::new(),
            charge_pools: Store::new(),
            passives: Store::new(),
            notebooks: Store::new(),
            bugs: Store::new(),
            channels: Store::new(),
            groupchats: Store::new(),
            lounges: Store::new(),
        }
    }

    pub open spec fn is_empty(&self) -> bool {
        &&& self.actors@ == Map::<ID, Actor>::empty()
        &&& self.abilities@ == Map::<ID, Ability>::empty()
        &&& self.charge_pools@ == Map::<ID, ChargePool>::empty()
        &&& self.passives@ == Map::<ID, Passive>::empty()
        &&& self.notebooks@ == Map::<ID, Notebook>::empty()
        &&& self.bugs@ == Map::<ID, Bug>::empty()
        &&& self.channels@ == Map::<ID, Channel>::empty()
        &&& self.groupchats@ == Map::<ID, Groupchat>::empty()
        &&& self.lounges@ == Map::<ID, Lounge>::empty()
    }

    /// Whether `id` is a player of the world.
    pub open spec fn is_player(&self, id: ID) -> bool {
        actor_is_player(self.actors@, id)
    }

    /// Whether `id` is an organization of the world.
    pub open spec fn is_org(&self, id: ID) -> bool {
        self.actors@.contains_key(id) && self.actors@[id].actor_type is Organization
    }

    pub open spec fn player(&self, id: ID) -> Player {
        self.actors@[id].actor_type->Player_0
    }

    pub open spec fn org(&self, id: ID) -> Organization {
        self.actors@[id].actor_type->Organization_0
    }

    /// An owner recorded on an object, if any, is an actor of the world.
    pub open spec fn owner_exists(&self, owner: Option<ID>) -> bool {
        owner matches Some(o) ==> self.actors@.contains_key(o)
    }

    /// Whether some player of the world has this true name.
    pub open spec fn name_taken(&self, name: Seq<char>) -> bool {
        exists|id: ID| #[trigger] self.is_player(id) && self.player(id).true_name@ == name
    }

    /// Changes only the ability list of actor `id`, with `f` telling how.
    pub open spec fn ability_list_changed(&self, old: World, id: ID, list: Seq<ID>) -> bool {
        &&& ability_list_set(old.actors@, self.actors@, id, list)
        &&& self.actors.next_key() == old.actors.next_key()
        &&& self.abilities == old.abilities
        &&& self.charge_pools == old.charge_pools
        &&& self.passives == old.passives
        &&& self.notebooks == old.notebooks
        &&& self.bugs == old.bugs
        &&& self.channels == old.channels
        &&& self.groupchats == old.groupchats
        &&& self.lounges == old.lounges
    }

    pub fn actor_add_ability(&mut self, id: ID, ability_id: ID)
        requires
            old(self).actors@.contains_key(id),
        ensures
            final(self).ability_list_changed(*old(self), id, id_inserted(old(self).actors@[id].abilities@, ability_id)),
    {
        let mut a: Actor = self.actors.take(id).unwrap();
        a.add_ability(ability_id);
        self.actors.put(id, a);
        assert(self.actors@ =~= old(self).actors@.insert(id, self.actors@[id]));
    }

    pub fn actor_remove_ability(&mut self, id: ID, ability_id: ID)
        requires
            old(self).actors@.contains_key(id),
        ensures
            final(self).ability_list_changed(*old(self), id, without(old(self).actors@[id].abilities@, ability_id)),
    {
        let mut a: Actor = self.actors.take(id).unwrap();
        a.remove_ability(ability_id);
        self.actors.put(id, a);
        assert(self.actors@ =~= old(self).actors@.insert(id, self.actors@[id]));
    }

    pub fn actor_add_passive(&mut self, id: ID, passive_id: ID)
        requires
            old(self).actors@.contains_key(id),
        ensures
            passive_list_set(old(self).actors@, final(self).actors@, id, id_inserted(old(self).actors@[id].passives@, passive_id)),
            final(self).actors.next_key() == old(self).actors.next_key(),
            *final(self) == (World { actors: final(self).actors, ..*old(self) }),
    {
        let mut a: Actor = self.actors.take(id).unwrap();
        a.add_passive(passive_id);
        self.actors.put(id, a);
        assert(self.actors@ =~= old(self).actors@.insert(id, self.actors@[id]));
    }

    pub fn actor_remove_passive(&mut self, id: ID, passive_id: ID)
        requires
            old(self).actors@.contains_key(id),
        ensures
            passive_list_set(old(self).actors@, final(self).actors@, id, without(old(self).actors@[id].passives@, passive_id)),
            final(self).actors.next_key() == old(self).actors.next_key(),
            *final(self) == (World { actors: final(self).actors, ..*old(self) }),
    {
        let mut a: Actor = self.actors.take(id).unwrap();
        a.remove_passive(passive_id);
        self.actors.put(id, a);
        assert(self.actors@ =~= old(self).actors@.insert(id, self.actors@[id]));
    }

    pub fn actor_add_notebook(&mut self, id: ID, notebook_id: ID)
        requires
            old(self).actors@.contains_key(id),
        ensures
            notebook_list_set(old(self).actors@, final(self).actors@, id, id_inserted(old(self).actors@[id].notebooks@, notebook_id)),
            final(self).actors.next_key() == old(self).actors.next_key(),
            *final(self) == (World { actors: final(self).actors, ..*old(self) }),
    {
        let mut a: Actor = self.actors.take(id).unwrap();
        a.add_notebook(notebook_id);
        self.actors.put(id, a);
        assert(self.actors@ =~= old(self).actors@.insert(id, self.actors@[id]));
    }

    pub fn actor_remove_notebook(&mut self, id: ID, notebook_id: ID)
        requires
            old(self).actors@.contains_key(id),
        ensures
            notebook_list_set(old(self).actors@, final(self).actors@, id, without(old(self).actors@[id].notebooks@, notebook_id)),
            final(self).actors.next_key() == old(self).actors.next_key(),
            *final(self) == (World { actors: final(self).actors, ..*old(self) }),
    {
        let mut a: Actor = self.actors.take(id).unwrap();
        a.remove_notebook(notebook_id);
        self.actors.put(id, a);
        assert(self.actors@ =~= old(self).actors@.insert(id, self.actors@[id]));
    }

    pub fn add_ability(&mut self, ability: Ability) -> (id: ID)
        ensures
            id == old(self).abilities.next_key(),
            !old(self).abilities@.contains_key(id),
            final(self).abilities@ == old(self).abilities@.insert(id, ability),
            final(self).abilities.next_key() == old(self).abilities.next_key() + 1,
            final(self).actors == old(self).actors,
            final(self).charge_pools == old(self).charge_pools,
            final(self).passives == old(self).passives,
            final(self).notebooks == old(self).notebooks,
            final(self).bugs == old(self).bugs,
            final(self).channels == old(self).channels,
            final(self).groupchats == old(self).groupchats,
            final(self).lounges == old(self).lounges,
    {
        self.abilities.add(ability)
    }

    pub fn remove_ability(&mut self, id: ID)
        ensures
            final(self).abilities@ == old(self).abilities@.remove(id),
            final(self).abilities.next_key() == old(self).abilities.next_key(),
            final(self).actors == old(self).actors,
            final(self).charge_pools == old(self).charge_pools,
            final(self).passives == old(self).passives,
            final(self).notebooks == old(self).notebooks,
            final(self).bugs == old(self).bugs,
            final(self).channels == old(self).channels,
            final(self).groupchats == old(self).groupchats,
            final(self).lounges == old(self).lounges,
    {
        self.abilities.remove(id)
    }

    /// Adds lounge `lid` to the lounges of player `id` (`add`), or takes it out.
    pub fn set_player_lounge(&mut self, id: ID, lid: ID, add: bool)
        requires
            old(self).is_player(id),
        ensures
            player_replaced(
                old(self).actors@,
                final(self).actors@,
                id,
                Player { lounges: final(self).player(id).lounges, ..old(self).player(id) },
            ),
            final(self).player(id).lounges@ == if add {
                id_inserted(old(self).player(id).lounges@, lid)
            } else {
                without(old(self).player(id).lounges@, lid)
            },
            final(self).actors.next_key() == old(self).actors.next_key(),
            *final(self) == (World { actors: final(self).actors, ..*old(self) }),
    {
        let mut a: Actor = self.actors.take(id).unwrap();
        match &mut a.actor_type {
            ActorType::Player(p) => {
                if add {
                    p.add_lounge(lid);
                } else {
                    p.remove_lounge(lid);
                }
            },
            ActorType::Organization(_) => {},
        }
        self.actors.put(id, a);
        assert(self.actors@ =~= old(self).actors@.insert(id, self.actors@[id]));
    }

    /// Gives player `id` role `role`.
    pub fn set_player_role(&mut self, id: ID, role: Role)
        requires
            old(self).is_player(id),
        ensures
            player_replaced(old(self).actors@, final(self).actors@, id, Player { role, ..old(self).player(id) }),
            final(self).actors.next_key() == old(self).actors.next_key(),
            *final(self) == (World { actors: final(self).actors, ..*old(self) }),
    {
        let mut a: Actor = self.actors.take(id).unwrap();
        match &mut a.actor_type {
            ActorType::Player(p) => {
                p.role = role;
            },
            ActorType::Organization(_) => {},
        }
        self.actors.put(id, a);
        assert(self.actors@ =~= old(self).actors@.insert(id, self.actors@[id]));
    }

    /// Removes every link of actor `id`.
    pub fn clear_actor_links(&mut self, id: ID)
        requires
            old(self).actors@.contains_key(id),
        ensures
            final(self).actors@ == old(self).actors@.insert(id, final(self).actors@[id]),
            final(self).actors@[id] == (Actor { links: final(self).actors@[id].links, ..old(self).actors@[id] }),
            final(self).actors@[id].links@.len() == 0,
            same_actor_types(old(self).actors@, final(self).actors@),
            final(self).actors.next_key() == old(self).actors.next_key(),
            *final(self) == (World { actors: final(self).actors, ..*old(self) }),
    {
        let mut a: Actor = self.actors.take(id).unwrap();
        a.clear_links();
        self.actors.put(id, a);
        assert(self.actors@ =~= old(self).actors@.insert(id, self.actors@[id]));
    }

    /// Adds bug `bid` to the bugs on player `id` (`add`), or takes it out.
    pub fn set_player_bug(&mut self, id: ID, bid: ID, add: bool)
        requires
            old(self).is_player(id),
        ensures
            player_replaced(
                old(self).actors@,
                final(self).actors@,
                id,
                Player { bugs: final(self).player(id).bugs, ..old(self).player(id) },
            ),
            final(self).player(id).bugs@ == if add {
                id_inserted(old(self).player(id).bugs@, bid)
            } else {
                without(old(self).player(id).bugs@, bid)
            },
            final(self).actors.next_key() == old(self).actors.next_key(),
            *final(self) == (World { actors: final(self).actors, ..*old(self) }),
    {
        let mut a: Actor = self.actors.take(id).unwrap();
        match &mut a.actor_type {
            ActorType::Player(p) => {
                if add {
                    p.add_bug(bid);
                } else {
                    p.remove_bug(bid);
                }
            },
            ActorType::Organization(_) => {},
        }
        self.actors.put(id, a);
        assert(self.actors@ =~= old(self).actors@.insert(id, self.actors@[id]));
    }

    /// Adds group chat `gid` to the group chats of player `id` (`add`), or takes it out.
    pub fn set_player_groupchat(&mut self, id: ID, gid: ID, add: bool)
        requires
            old(self).is_player(id),
        ensures
            player_replaced(
                old(self).actors@,
                final(self).actors@,
                id,
                Player { groupchats: final(self).player(id).groupchats, ..old(self).player(id) },
            ),
            final(self).player(id).groupchats@ == if add {
                id_inserted(old(self).player(id).groupchats@, gid)
            } else {
                without(old(self).player(id).groupchats@, gid)
            },
            final(self).actors.next_key() == old(self).actors.next_key(),
            *final(self) == (World { actors: final(self).actors, ..*old(self) }),
    {
        let mut a: Actor = self.actors.take(id).unwrap();
        match &mut a.actor_type {
            ActorType::Player(p) => {
                if add {
                    p.add_groupchat(gid);
                } else {
                    p.remove_groupchat(gid);
                }
            },
            ActorType::Organization(_) => {},
        }
        self.actors.put(id, a);
        assert(self.actors@ =~= old(self).actors@.insert(id, self.actors@[id]));
    }

    /// Records the settings of an ability of organization `id`, replacing earlier ones.
    pub fn set_org_ability(&mut self, id: ID, ability: ID, settings: OrgAbility)
        requires
            old(self).is_org(id),
        ensures
            org_replaced(
                old(self).actors@,
                final(self).actors@,
                id,
                Organization { abilities: final(self).org(id).abilities, ..old(self).org(id) },
            ),
            final(self).org(id).abilities@ == without_key(old(self).org(id).abilities@, ability).push((ability, settings)),
            final(self).actors.next_key() == old(self).actors.next_key(),
            *final(self) == (World { actors: final(self).actors, ..*old(self) }),
    {
        let mut a: Actor = self.actors.take(id).unwrap();
        match &mut a.actor_type {
            ActorType::Organization(o) => {
                o.add_ability(ability, settings);
            },
            ActorType::Player(_) => {},
        }
        self.actors.put(id, a);
        assert(self.actors@ =~= old(self).actors@.insert(id, self.actors@[id]));
    }

    /// The player with a given true name, if there is one.
    pub fn get_player_id_by_name(&self, name: &String) -> (r: Option<ID>)
        ensures
            r matches Some(id) ==> self.is_player(id) && self.player(id).true_name@ == name@,
            r is None ==> !self.name_taken(name@),
    {
        let n: usize = self.actors.len_slots();
        let mut i: usize = 0;
        while i < n
            invariant
                n == self.actors.next_key(),
                i <= n,
                forall|id: ID| (id as int) < i && #[trigger] self.is_player(id) ==> self.player(id).true_name@ != name@,
            decreases n - i,
        {
            let id: ID = i as ID;
            match self.actors.get(id) {
                Some(actor) => {
                    match &actor.actor_type {
                        ActorType::Player(p) => {
                            if p.true_name == *name {
                                return Some(id);
                            }
                        },
                        ActorType::Organization(_) => {},
                    }
                },
                None => {},
            }
            i = i + 1;
        }
        proof {
            assert forall|id: ID| #[trigger] self.is_player(id) implies self.player(id).true_name@ != name@ by {
                self.actors.lemma_keys_below_next(id);
            }
        }
        None
    }

    /// Adds a player with a true name no player has; `None` if the name is taken.
    pub fn add_player(&mut self, true_name: &String, role: Role) -> (r: Option<ID>)
        ensures
            r is None <==> old(self).name_taken(true_name@),
            r is None ==> *final(self) == *old(self),
            r matches Some(id) ==> {
                &&& id == old(self).actors.next_key()
                &&& !old(self).actors@.contains_key(id)
                &&& final(self).actors@ == old(self).actors@.insert(id, final(self).actors@[id])
                &&& final(self).actors@[id].is_new_player(true_name@, role)
                &&& final(self).actors.next_key() == old(self).actors.next_key() + 1
                &&& final(self).abilities == old(self).abilities
                &&& final(self).charge_pools == old(self).charge_pools
                &&& final(self).passives == old(self).passives
                &&& final(self).notebooks == old(self).notebooks
                &&& final(self).bugs == old(self).bugs
                &&& final(self).channels == old(self).channels
                &&& final(self).groupchats == old(self).groupchats
                &&& final(self).lounges == old(self).lounges
            },
    {
        if self.get_player_id_by_name(true_name).is_some() {
            return None;
        }
        let actor = Actor::new(ActorType::Player(Player::new(true_name.clone(), role)));
        let id: ID = self.actors.add(actor);
        Some(id)
    }
}

impl Engine {
    pub fn new(config: Config) -> (e: Self)
        ensures
            e.world.is_empty(),
            e.config == config,
            e.time == 0,
            e.jobs@ == Seq::<ActionRequest>::empty(),
            e.polls@ == Map::<ID, Poll>::empty(),
            e.polls.next_key() == 0,
            e.wf(),
    {
        Engine { world: World::new(), config, time: 0, jobs: Vec::new(), polls: Store::new() }
    }

    /// The facts about a world that every action keeps.
    pub open spec fn wf(&self) -> bool {
        &&& forall|k: ID| #[trigger] self.world.abilities@.contains_key(k)
            ==> self.world.owner_exists(self.world.abilities@[k].ownership_struct.owner)
        &&& forall|k: ID| #[trigger] self.world.passives@.contains_key(k)
            ==> self.world.owner_exists(self.world.passives@[k].ownership_struct.owner)
        &&& forall|k: ID| #[trigger] self.world.notebooks@.contains_key(k)
            ==> self.world.owner_exists(self.world.notebooks@[k].owner)
        &&& forall|k: ID| #[trigger] self.world.bugs@.contains_key(k)
            ==> actor_is_player(self.world.actors@, self.world.bugs@[k].target_id)
        &&& forall|k: ID| #[trigger] self.world.actors@.contains_key(k)
            ==> org_members_are_players(self.world.actors@, self.world.actors@[k])
        &&& forall|k: ID| #[trigger] self.world.groupchats@.contains_key(k)
            ==> (self.world.groupchats@[k].owner matches Some(o) ==> actor_is_player(self.world.actors@, o))
    }

    /// `self` differs from `old` at most in the parts that `t` names.
    pub open spec fn only_touches(&self, old: Engine, t: Touched) -> bool {
        &&& self.config == old.config
        &&& self.time == old.time
        &&& (!t.actors ==> same_store(self.world.actors, old.world.actors))
        &&& (!t.abilities ==> same_store(self.world.abilities, old.world.abilities))
        &&& (!t.charge_pools ==> same_store(self.world.charge_pools, old.world.charge_pools))
        &&& (!t.passives ==> same_store(self.world.passives, old.world.passives))
        &&& (!t.notebooks ==> same_store(self.world.notebooks, old.world.notebooks))
        &&& (!t.bugs ==> same_store(self.world.bugs, old.world.bugs))
        &&& (!t.channels ==> same_store(self.world.channels, old.world.channels))
        &&& (!t.groupchats ==> same_store(self.world.groupchats, old.world.groupchats))
        &&& (!t.lounges ==> same_store(self.world.lounges, old.world.lounges))
        &&& (!t.jobs ==> self.jobs@ == old.jobs@)
        &&& (!t.polls ==> same_store(self.polls, old.polls))
    }

    /// `self` is `old` as far as anything can tell.
    pub open spec fn unchanged(&self, old: Engine) -> bool {
        self.only_touches(old, Touched::nothing())
    }

    /// Queues a request to run later.
    pub fn schedule(&mut self, req: ActionRequest)
        ensures
            final(self).jobs@ == old(self).jobs@.push(req),
            final(self).world == old(self).world,
            final(self).polls == old(self).polls,
            final(self).config == old(self).config,
            final(self).time == old(self).time,
    {
        self.jobs.push(req);
    }
}

impl Actor {
    /// A player just added: it has the given name and role and nothing else.
    pub open spec fn is_new_player(&self, true_name: Seq<char>, role: Role) -> bool {
        &&& self.actor_type is Player
        &&& self.actor_type->Player_0.true_name@ == true_name
        &&& self.actor_type->Player_0.role == role
        &&& self.actor_type->Player_0.lounges@.len() == 0
        &&& self.actor_type->Player_0.groupchats@.len() == 0
        &&& self.actor_type->Player_0.bugs@.len() == 0
        &&& self.states@.len() == 0
        &&& self.abilities@.len() == 0
        &&& self.passives@.len() == 0
        &&& self.notebooks@.len() == 0
        &&& self.links@.len() == 0
        &&& self.pool_map@.len() == 0
    }
}

} // verus!
