//! Topping up the payer at start: ask for an airdrop, wait for the
//! transaction to be confirmed, read the balance back.
//!
//! The three calls go to the cluster and are made elsewhere. The functions
//! here say which call comes next and how the sequence ends: the first call
//! that fails ends it with that failure, and after the third the result is
//! the identifier of the airdrop transaction.

use crate::errors::ShopCustomError;
use crate::modals::ShopConfigurations;
use crate::shop_anchor_utils::{describes, try_get_program, usable, Program};
use crate::thread_utils::configuration_failure;
use solana_sdk::native_token::LAMPORTS_PER_SOL;
use vstd::prelude::*;

verus! {

/// How many SOL an airdrop asks for.
pub const SOLS: u64 = 50;

/// Reads the constant `LAMPORTS_PER_SOL` of the Solana SDK.
///
/// Trusted: the SDK defines it as 1_000_000_000.
#[verifier::external_body]
fn lamports_per_sol() -> (lamports: u64)
    ensures
        lamports == 1_000_000_000,
{
    LAMPORTS_PER_SOL
}

/// The amount of an airdrop, in lamports.
pub open spec fn airdrop_amount() -> int {
    SOLS * 1_000_000_000
}

/// How far the sequence has come, with the outcome of the call made last.
#[derive(Debug, PartialEq, Eq)]
pub enum AirdropStage {
    /// No call was made yet.
    Start,
    /// The airdrop was asked for; on success the outcome is the transaction
    /// identifier.
    AirdropRequested(Result<String, ShopCustomError>),
    /// The transaction with this identifier was asked about.
    TransactionConfirmed(String, Result<bool, ShopCustomError>),
    /// After the transaction with this identifier, the balance was read.
    BalanceRead(String, Result<u64, ShopCustomError>),
}

/// What to do next.
#[derive(Debug, PartialEq, Eq)]
pub enum AirdropStep {
    /// Ask for an airdrop of this many lamports to the payer.
    RequestAirdrop(u64),
    /// Ask whether the transaction with this identifier is confirmed.
    ConfirmTransaction(String),
    /// Read the payer's balance; the identifier is carried along.
    GetBalance(String),
    /// The sequence is over, with the transaction identifier or a failure.
    Done(Result<String, ShopCustomError>),
}

pub enum AirdropStepView {
    RequestAirdrop(int),
    ConfirmTransaction(Seq<char>),
    GetBalance(Seq<char>),
    Succeeded(Seq<char>),
    Failed(Seq<char>),
}

impl View for AirdropStep {
    type V = AirdropStepView;

    open spec fn view(&self) -> AirdropStepView {
        match *self {
            AirdropStep::RequestAirdrop(lamports) => AirdropStepView::RequestAirdrop(
                lamports as int,
            ),
            AirdropStep::ConfirmTransaction(tx_id) => AirdropStepView::ConfirmTransaction(tx_id@),
            AirdropStep::GetBalance(tx_id) => AirdropStepView::GetBalance(tx_id@),
            AirdropStep::Done(Ok(tx_id)) => AirdropStepView::Succeeded(tx_id@),
            AirdropStep::Done(Err(e)) => AirdropStepView::Failed(e@),
        }
    }
}

/// The step that follows a stage.
///
/// Whether the transaction was reported as confirmed, and what the balance
/// is, does not change the course: both are for the log.
pub open spec fn step_after(stage: AirdropStage) -> AirdropStepView {
    match stage {
        AirdropStage::Start => AirdropStepView::RequestAirdrop(airdrop_amount()),
        AirdropStage::AirdropRequested(Ok(tx_id)) => AirdropStepView::ConfirmTransaction(tx_id@),
        AirdropStage::AirdropRequested(Err(e)) => AirdropStepView::Failed(e@),
        AirdropStage::TransactionConfirmed(tx_id, Ok(_)) => AirdropStepView::GetBalance(tx_id@),
        AirdropStage::TransactionConfirmed(_, Err(e)) => AirdropStepView::Failed(e@),
        AirdropStage::BalanceRead(tx_id, Ok(_)) => AirdropStepView::Succeeded(tx_id@),
        AirdropStage::BalanceRead(_, Err(e)) => AirdropStepView::Failed(e@),
    }
}

/// Says what to do after `stage`.
pub fn check_balance_of_fee_payer_and_airdrop(stage: AirdropStage) -> (step: AirdropStep)
    ensures
        step@ == step_after(stage),
{
    match stage {
        AirdropStage::Start => AirdropStep::RequestAirdrop(SOLS * lamports_per_sol()),
        AirdropStage::AirdropRequested(Ok(tx_id)) => AirdropStep::ConfirmTransaction(tx_id),
        AirdropStage::AirdropRequested(Err(e)) => AirdropStep::Done(Err(e)),
        AirdropStage::TransactionConfirmed(tx_id, Ok(_)) => AirdropStep::GetBalance(tx_id),
        AirdropStage::TransactionConfirmed(_, Err(e)) => AirdropStep::Done(Err(e)),
        AirdropStage::BalanceRead(tx_id, Ok(_)) => AirdropStep::Done(Ok(tx_id)),
        AirdropStage::BalanceRead(_, Err(e)) => AirdropStep::Done(Err(e)),
    }
}

/// Prepares an airdrop for the payer of a configuration: the program handle
/// through which the calls are made, and the first step.
///
/// Fails, before any call is made, where no program handle can be built.
pub fn request_airdrop_for_current_wallet(shop_configurations: &ShopConfigurations) -> (prepared:
    Result<(Program, AirdropStep), ShopCustomError>)
    ensures
        prepared is Ok <==> usable(*shop_configurations),
        prepared matches Ok(pair) ==> describes(*shop_configurations, pair.0) && pair.1@
            == step_after(AirdropStage::Start),
{
    match try_get_program(shop_configurations) {
        Ok(program) => Ok((program, check_balance_of_fee_payer_and_airdrop(AirdropStage::Start))),
        Err(cause) => Err(configuration_failure(cause)),
    }
}

} // verus!
