pub mod system_use_org_ability;
pub mod use_org_ability;
pub mod give_org_ability;
pub mod create_and_give_org_ability;
pub mod create_org;
pub mod remove_from_org;
pub mod add_to_org;
pub mod change_org_leader;
