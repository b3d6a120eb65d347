//! From the entries of the environment to the configuration record.
//!
//! Reading the environment is done elsewhere. What arrives here is the text
//! of each entry, the two key entries being optional.

use crate::errors::ConfigError;
use crate::modals::{ShopConfigurations, ShopState};
use crate::shop_anchor_utils::{try_get_program, usable};
use crate::shop_solana_utils::{
    get_key_pair_bytes_from_env_string_return_random_if_no_key_string_found,
    is_key_pair,
    supplied_key_pair,
};
use vstd::prelude::*;
use vstd::string::StringExecFns;

verus! {

/// Builds the configuration from the entries `HOST`, `PORT`, `PROGRAM_ID`,
/// `CLUSTER`, `CLUSTER_URL`, `CLUSTER_WS_URL`, `PAYER_KEY_PAIR` and
/// `ACCOUNT_PUBKEY`.
///
/// The six texts are kept as they are. Each of the two keys is the key pair
/// that its entry spells out, or one drawn at random where the entry is
/// missing or spells none; either way the configuration holds two key pairs.
pub fn get_environment_configurations(
    host: &str,
    port: &str,
    program_id: &str,
    cluster: &str,
    cluster_url: &str,
    cluster_ws_url: &str,
    optional_payer_key_pair: Option<&str>,
    optional_account_key_pair: Option<&str>,
) -> (configurations: ShopConfigurations)
    ensures
        configurations.host@ == host@,
        configurations.port@ == port@,
        configurations.program_id@ == program_id@,
        configurations.cluster@ == cluster@,
        configurations.cluster_url@ == cluster_url@,
        configurations.cluster_ws_url@ == cluster_ws_url@,
        is_key_pair(configurations.payer_key_pair_bytes@),
        is_key_pair(configurations.account_key_pair_bytes@),
        supplied_key_pair(optional_payer_key_pair) matches Some(supplied)
            ==> configurations.payer_key_pair_bytes@ == supplied,
        supplied_key_pair(optional_account_key_pair) matches Some(supplied)
            ==> configurations.account_key_pair_bytes@ == supplied,
{
    let payer_key_pair_bytes =
        get_key_pair_bytes_from_env_string_return_random_if_no_key_string_found(
        optional_payer_key_pair,
    );
    let account_key_pair_bytes =
        get_key_pair_bytes_from_env_string_return_random_if_no_key_string_found(
        optional_account_key_pair,
    );
    ShopConfigurations {
        host: String::from_str(host),
        port: String::from_str(port),
        program_id: String::from_str(program_id),
        cluster: String::from_str(cluster),
        cluster_url: String::from_str(cluster_url),
        cluster_ws_url: String::from_str(cluster_ws_url),
        payer_key_pair_bytes,
        account_key_pair_bytes,
    }
}

/// The state handed to request handlers, for a configuration from which a
/// program handle can be built.
///
/// Fails, as building the handle does, where the program identifier does not
/// decode or the payer bytes are no key pair.
pub fn get_shop_state<'a>(shop_configurations: &'a ShopConfigurations) -> (state: Result<
    ShopState<'a>,
    ConfigError,
>)
    ensures
        state is Ok <==> usable(*shop_configurations),
        state matches Ok(shop_state) ==> *shop_state.shop_configurations == *shop_configurations,
{
    match try_get_program(shop_configurations) {
        Ok(_) => Ok(ShopState { shop_configurations }),
        Err(cause) => Err(cause),
    }
}

} // verus!
