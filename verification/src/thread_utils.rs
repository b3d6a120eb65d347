//! The two ends of a unit of work that runs on a worker of its own.
//!
//! On the worker, `worker_task` resolves a program handle and the catalog key
//! from the configuration and hands both to the work. Back on the waiting
//! side, `conclude` turns what became of the worker into the caller's result:
//! a worker that returned passes its result on unchanged, and a worker that
//! crashed gives the same kind of error as a call that failed.

use crate::errors::{ConfigError, ShopCustomError};
use crate::modals::ShopConfigurations;
use crate::shop_anchor_utils::{describes, try_get_program, usable, Program};
use crate::shop_solana_utils::{is_key_pair, keypair_from_bytes, SigningKey};
use vstd::prelude::*;

verus! {

/// The uniform error for a configuration that cannot be used. It carries the
/// diagnostic of the cause.
pub fn configuration_failure(cause: ConfigError) -> (error: ShopCustomError)
    ensures
        cause matches ConfigError::BadProgramId(detail) ==> error@ == detail@,
        cause matches ConfigError::BadKeyMaterial(detail) ==> error@ == detail@,
{
    match cause {
        ConfigError::BadProgramId(detail) => ShopCustomError::from_detail(detail),
        ConfigError::BadKeyMaterial(detail) => ShopCustomError::from_detail(detail),
    }
}

/// Whether the configuration gives a worker all it needs: a usable program
/// handle and catalog bytes that are a key pair.
pub open spec fn ready(shop_configurations: ShopConfigurations) -> bool {
    usable(shop_configurations) && is_key_pair(shop_configurations.account_key_pair_bytes@)
}

/// Whether `program` and `catalog_key` are what a worker resolves from the
/// configuration.
pub open spec fn resolved(
    shop_configurations: ShopConfigurations,
    program: Program,
    catalog_key: SigningKey,
) -> bool {
    describes(shop_configurations, program) && catalog_key@
        == shop_configurations.account_key_pair_bytes@
}

/// Resolves what the work is handed: the program handle and the catalog key.
pub fn worker_inputs(shop_configurations: &ShopConfigurations) -> (inputs: Result<
    (Program, SigningKey),
    ShopCustomError,
>)
    ensures
        inputs is Ok <==> ready(*shop_configurations),
        inputs matches Ok(pair) ==> resolved(*shop_configurations, pair.0, pair.1),
{
    let program = match try_get_program(shop_configurations) {
        Ok(program) => program,
        Err(cause) => {
            return Err(configuration_failure(cause));
        },
    };
    let goods_account_key_pair = match keypair_from_bytes(
        shop_configurations.account_key_pair_bytes.as_slice(),
    ) {
        Ok(key) => key,
        Err(e) => {
            return Err(e);
        },
    };
    Ok((program, goods_account_key_pair))
}

/// What runs on the worker: resolve the inputs, then do the work with them.
///
/// With a configuration that is not ready the work is never started and an
/// error comes back. Otherwise the result is the work's own, on the inputs
/// that the configuration describes.
pub fn worker_task<T, F>(shop_configurations: &ShopConfigurations, f: F) -> (result: Result<
    T,
    ShopCustomError,
>) where F: FnOnce(Program, SigningKey) -> Result<T, ShopCustomError>
    requires
        forall|program: Program, catalog_key: SigningKey|
            resolved(*shop_configurations, program, catalog_key) ==> f.requires(
                (program, catalog_key),
            ),
    ensures
        !ready(*shop_configurations) ==> result is Err,
        ready(*shop_configurations) ==> exists|program: Program, catalog_key: SigningKey|
            resolved(*shop_configurations, program, catalog_key) && f.ensures(
                (program, catalog_key),
                result,
            ),
{
    match worker_inputs(shop_configurations) {
        Ok((program, goods_account_key_pair)) => f(program, goods_account_key_pair),
        Err(e) => Err(e),
    }
}

/// What became of a worker.
#[derive(Debug)]
pub enum WorkerExit<T> {
    /// The work ran to its end and returned this.
    Returned(Result<T, ShopCustomError>),
    /// The worker ended abnormally; the text describes how.
    Crashed(String),
}

/// The caller's result for a worker that has ended.
///
/// A returned result is passed on as it is. A crash becomes an error that
/// carries the crash's description as its diagnostic.
pub fn conclude<T>(exit: WorkerExit<T>) -> (result: Result<T, ShopCustomError>)
    ensures
        exit matches WorkerExit::Returned(returned) ==> result == returned,
        exit matches WorkerExit::Crashed(detail) ==> (result matches Err(e) && e@ == detail@),
{
    match exit {
        WorkerExit::Returned(returned) => returned,
        WorkerExit::Crashed(detail) => Err(ShopCustomError::from_detail(detail)),
    }
}

} // verus!
