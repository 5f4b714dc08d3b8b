pub mod add_charge_pool;
pub mod add_charges;
pub mod try_delete_charge_pool;
