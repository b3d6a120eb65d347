//! A bridge between a REST front end and a ledger program that keeps a
//! catalog of goods in one on-chain account.
//!
//! The library holds the rules of the service and none of its I/O:
//!
//! - `key_text` and `shop_solana_utils` turn an optional secret into a
//!   signing key, falling back to a fresh one, and decode program identifiers;
//! - `shop_anchor_utils` picks the cluster and builds the program handle;
//! - `thread_utils` says what a worker does with a unit of work and what the
//!   caller gets once the worker has ended;
//! - `routes` and `airdrop` say which call to the ledger comes next and how
//!   its outcome is answered;
//! - `errors` is the one error that all of them share.

pub mod airdrop;
pub mod configure;
pub mod decimal;
pub mod errors;
pub mod key_text;
pub mod modals;
pub mod routes;
pub mod shop_anchor_utils;
pub mod shop_solana_utils;
pub mod thread_utils;

pub use airdrop::{check_balance_of_fee_payer_and_airdrop, request_airdrop_for_current_wallet};
pub use configure::{get_environment_configurations, get_shop_state};
pub use errors::{ConfigError, ShopCustomError};
pub use modals::{Good, GoodView, ShopConfigurations, ShopState};
pub use routes::{
    delete_all_goods, delete_goods, get_all_goods, get_specific_good, initialize, insert_goods,
    update_goods,
};
pub use shop_anchor_utils::{configure_and_get_client, get_cluster, try_get_program};
pub use shop_solana_utils::{
    get_key_pair_bytes_from_env_string_return_random_if_no_key_string_found, get_random_key_pair,
    keypair_from_bytes, try_get_program_id, try_parse_key_pair,
};
