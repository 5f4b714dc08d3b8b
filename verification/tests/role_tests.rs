#![allow(dead_code, unused_imports)]

use mafia_engine::ability::gun::Gun;
use mafia_engine::ability::AbilityBehaviour;
use mafia_engine::action::ability::create_and_give_ability::CreateAndGiveAbility;
use mafia_engine::action::ability::use_ability::UseAbility;
use mafia_engine::action::add_player::AddPlayer;
use mafia_engine::action::create_and_give_notebook::CreateAndGiveNotebook;
use mafia_engine::action::create_and_give_passive::CreateAndGivePassive;
use mafia_engine::action::give_role::GiveRole;
use mafia_engine::action::{Action, ActionActor, ActionContext, ActionError, ActionRequest, ActionResponse};
use mafia_engine::actor::{ActorLink, ActorLinkType, Modifier, State};
use mafia_engine::chargepool::PoolLinkType;
use mafia_engine::common::ID;
use mafia_engine::config::{
    AbilityConfig, AbilityIdentifier, AbilityName, Config, Defaults, Role, RoleAbility, RoleActorLink,
    RoleConfig, RoleNotebook, RolePassive,
};
use mafia_engine::engine::Engine;
use mafia_engine::helpers::{get_ability, get_actor, get_notebook, get_passive, get_player};
use mafia_engine::passive::PassiveType;

/// Mafiosi get a gun, night immunity and a fake notebook, and know one another; civilians
/// get nothing.
fn role_config() -> Config {
    let civilian = RoleConfig { abilities: vec![], passives: vec![], notebooks: vec![], actor_links: vec![] };
    let mafioso = RoleConfig {
        abilities: vec![RoleAbility { identifier: AbilityIdentifier { name: AbilityName::Gun, variant: 0 }, transferrable: true }],
        passives: vec![RolePassive { passive_type: PassiveType::NightImmunity, transferrable: false }],
        notebooks: vec![RoleNotebook { fake: true }],
        actor_links: vec![RoleActorLink { role: Role::Mafioso, link_type: ActorLinkType::Knows }],
    };
    Config {
        abilities: vec![(
            AbilityIdentifier { name: AbilityName::Gun, variant: 0 },
            AbilityConfig { require_presence: true, default_links: vec![] },
        )],
        roles: vec![(Role::Civilian, civilian), (Role::Mafioso, mafioso)],
        state_modifiers: vec![(State::Dead, vec![Modifier::NoPresence, Modifier::NoContact])],
        org_config: vec![],
        actor_pools: vec![],
        defaults: Defaults { universal_abilities: vec![], pseudocide_duration: 10, org_vote_time: 5 },
    }
}

fn run(eng: &mut Engine, payload: Action) -> Result<(ActionResponse, ActionContext), ActionError> {
    eng.execute(ActionRequest { actor: ActionActor::System, timestamp: 0, payload })
}

fn add_player(eng: &mut Engine, role: Role, name: &str) -> ID {
    match run(eng, Action::AddPlayer(AddPlayer { true_name: name.to_string(), starting_role: role })).unwrap().0 {
        ActionResponse::AddPlayer(data) => data.id,
        _ => panic!("unexpected response"),
    }
}

fn give_role(eng: &mut Engine, target_id: ID, role: Role) {
    run(eng, Action::GiveRole(GiveRole { target_id, role })).unwrap();
}

fn volatile_counts(eng: &Engine, id: ID) -> (usize, usize, usize) {
    let a = get_actor(eng, id).unwrap();
    let abilities = a.abilities.iter().filter(|k| get_ability(eng, **k).unwrap().ownership_struct.volatile).count();
    let passives = a.passives.iter().filter(|k| get_passive(eng, **k).unwrap().ownership_struct.volatile).count();
    let notebooks = a.notebooks.iter().filter(|k| get_notebook(eng, **k).unwrap().volatile).count();
    (abilities, passives, notebooks)
}

#[test]
fn give_role_grants_role_items_and_links() {
    let mut eng = Engine::new(role_config());
    let p1 = add_player(&mut eng, Role::Mafioso, "p1");
    let p2 = add_player(&mut eng, Role::Civilian, "p2");
    give_role(&mut eng, p2, Role::Mafioso);

    assert_eq!(get_player(&eng, p2).unwrap().role, Role::Mafioso);
    assert_eq!(volatile_counts(&eng, p2), (1, 1, 1));
    let a = get_actor(&eng, p2).unwrap();
    assert_eq!(a.links, vec![ActorLink { link_type: ActorLinkType::Knows, link_dest: p1 }]);
    assert_eq!(get_notebook(&eng, a.notebooks[0]).unwrap().fake, true);
    assert_eq!(get_passive(&eng, a.passives[0]).unwrap().passive_type, PassiveType::NightImmunity);
    assert_eq!(get_ability(&eng, a.abilities[0]).unwrap().ownership_struct.transferrable, true);
}

#[test]
fn give_role_twice_resets_instead_of_adding() {
    let mut eng = Engine::new(role_config());
    let p1 = add_player(&mut eng, Role::Mafioso, "p1");
    let first = volatile_counts(&eng, p1);
    give_role(&mut eng, p1, Role::Mafioso);
    assert_eq!(volatile_counts(&eng, p1), first);
    give_role(&mut eng, p1, Role::Mafioso);
    assert_eq!(volatile_counts(&eng, p1), (1, 1, 1));
    assert_eq!(get_actor(&eng, p1).unwrap().links.len(), 0);
}

#[test]
fn give_role_severs_old_links_and_keeps_permanent_items() {
    let mut eng = Engine::new(role_config());
    let p1 = add_player(&mut eng, Role::Mafioso, "p1");
    let p2 = add_player(&mut eng, Role::Mafioso, "p2");
    assert_eq!(get_actor(&eng, p2).unwrap().links, vec![ActorLink { link_type: ActorLinkType::Knows, link_dest: p1 }]);

    let passive = match run(
        &mut eng,
        Action::CreateAndGivePassive(CreateAndGivePassive {
            actor_id: p2,
            passive_type: PassiveType::NightImmunity,
            transferrable: false,
            volatile: false,
        }),
    )
    .unwrap()
    .0
    {
        ActionResponse::CreateAndGivePassive(data) => data.id,
        _ => panic!("unexpected response"),
    };
    let notebook = match run(&mut eng, Action::CreateAndGiveNotebook(CreateAndGiveNotebook { fake: false, volatile: false, actor_id: p2 }))
        .unwrap()
        .0
    {
        ActionResponse::CreateAndGiveNotebook(data) => data.id,
        _ => panic!("unexpected response"),
    };

    give_role(&mut eng, p2, Role::Civilian);
    let a = get_actor(&eng, p2).unwrap();
    assert_eq!(a.links.len(), 0);
    assert_eq!(volatile_counts(&eng, p2), (0, 0, 0));
    assert_eq!(a.passives, vec![passive]);
    assert_eq!(a.notebooks, vec![notebook]);
    assert!(get_passive(&eng, passive).is_ok());
    assert!(get_notebook(&eng, notebook).is_ok());
}

#[test]
fn added_player_is_found_by_name() {
    let mut eng = Engine::new(role_config());
    let p1 = add_player(&mut eng, Role::Civilian, "p1");
    let p2 = add_player(&mut eng, Role::Civilian, "p2");
    assert_eq!(eng.world.get_player_id_by_name(&"p1".to_string()), Some(p1));
    assert_eq!(eng.world.get_player_id_by_name(&"p2".to_string()), Some(p2));
    assert_eq!(eng.world.get_player_id_by_name(&"p3".to_string()), None);
}
