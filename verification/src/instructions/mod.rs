pub mod add_asset_class;
pub mod add_liquidity;
pub mod buy_asset;
pub mod defend;
pub mod finish_upgrade;
pub mod initialize_game;
pub mod initialize_player;
pub mod initialize_treasury;
pub mod join_game;
pub mod purchase_business;
pub mod queue_upgrade;
pub mod set_params;
pub mod set_treasury_params;
pub mod swap_credits_for_wealth;
pub mod swap_wealth_for_credits;
pub mod takeover;
pub mod work;

pub use add_asset_class::{add_asset_class, AddAssetClassParams};
pub use add_liquidity::add_liquidity;
pub use buy_asset::buy_asset;
pub use defend::defend;
pub use finish_upgrade::finish_upgrade;
pub use initialize_game::{initialize_game, InitializeGameParams};
pub use initialize_player::initialize_player;
pub use initialize_treasury::initialize_treasury;
pub use join_game::join_game;
pub use purchase_business::{get_business_cost, get_max_slots, purchase_business};
pub use queue_upgrade::queue_upgrade;
pub use set_params::{pause, set_params, SetParamsArgs};
pub use set_treasury_params::set_treasury_params;
pub use swap_credits_for_wealth::swap_credits_for_wealth;
pub use swap_wealth_for_credits::swap_wealth_for_credits;
pub use takeover::takeover;
pub use work::{calculate_work_reward, do_work, handle_streak_update, update_work_frequency_level};
