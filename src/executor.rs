//! The steps of one transfer job. Each executor is a state machine: it
//! names the next call for the job's chain client, takes that call's
//! response, and either names the following call or ends with the outcome
//! that goes back through the job's reply channel.

use crate::amount::{amount_limit, scale_token_amount, scaled_amount, Amount};
use crate::types::{AccountId, ErrorKind, EvmAddress, Receipt, TxHash, TxResult};
use vstd::arithmetic::power::pow;
use vstd::prelude::*;

verus! {

/// How a chain client call failed.
#[derive(Clone, Copy, Debug, PartialEq, Eq)]
pub enum CallError {
    /// The network or the node could not be reached or answered with an error.
    Transport,
    /// The chain or the client refused the transaction or the call.
    Rejected,
}

/// A call that a running job needs from its chain client.
#[allow(inconsistent_fields)]
#[derive(Clone, Copy, Debug, PartialEq, Eq)]
pub enum Request {
    /// List the accounts that the EVM client can sign for.
    ListAccounts,
    /// Send `amount` of the native coin from `from` to `to`.
    SendNative { from: EvmAddress, to: EvmAddress, amount: Amount },
    /// Ask whether the EVM client can sign.
    CheckSigner,
    /// Read the decimal precision of the token contract.
    ReadDecimals { token: EvmAddress },
    /// Call the token contract's `transfer(to, amount)` in a legacy
    /// (pre-EIP-1559) transaction.
    SendTokenTransfer { token: EvmAddress, to: EvmAddress, amount: Amount },
    /// Wait for the receipt of the transaction just sent.
    AwaitReceipt,
    /// Sign and submit a native balance transfer, and watch it.
    SubmitBalanceTransfer { to: AccountId, amount: u128 },
    /// Sign and submit a transfer of asset `asset_id`, and watch it.
    SubmitAssetTransfer { to: AccountId, asset_id: u32, amount: u128 },
    /// Wait until the submitted extrinsic is finalized.
    WaitFinalized,
}

/// What a chain client call gave back.
#[derive(Clone, Debug)]
pub enum Response {
    Accounts(Vec<EvmAddress>),
    Signer(bool),
    Decimals(u8),
    /// The transaction was accepted and is pending.
    Sent,
    /// The receipt, absent when the node returned none.
    Receipt(Option<Receipt>),
    /// The extrinsic was submitted under this hash.
    Submitted(TxHash),
    /// The extrinsic was finalized with success; whether a transfer event was
    /// found among its events is for logging only.
    Finalized { transfer_event_found: bool },
    Failed(CallError),
}

/// Where a running job stands: the call it waits on, and what it still needs.
#[derive(Clone, Copy, Debug, PartialEq, Eq)]
pub enum Stage {
    AwaitingAccounts { to: EvmAddress, amount: Amount },
    AwaitingSigner { token: EvmAddress, to: EvmAddress, amount: Amount },
    AwaitingDecimals { token: EvmAddress, to: EvmAddress, amount: Amount },
    AwaitingSend,
    AwaitingReceipt,
    AwaitingSubmission,
    AwaitingFinality { hash: TxHash },
}

/// The result of one step: a further call, or the job's outcome.
#[derive(Clone, Copy, Debug, PartialEq, Eq)]
pub enum Progress {
    Call(Stage, Request),
    Done(Result<TxResult, ErrorKind>),
}

/// An upper bound on the calls a job in `stage` still makes after the one
/// it waits on.
pub open spec fn rank(stage: Stage) -> nat {
    match stage {
        Stage::AwaitingSigner { .. } => 4,
        Stage::AwaitingDecimals { .. } => 3,
        Stage::AwaitingAccounts { .. } => 2,
        Stage::AwaitingSend => 1,
        Stage::AwaitingSubmission => 1,
        Stage::AwaitingReceipt => 0,
        Stage::AwaitingFinality { .. } => 0,
    }
}

/// The error kind of a failed call made in `stage`: a failed account listing
/// or receipt wait is a transport failure, a failed finality wait a finality
/// failure; otherwise a transport error is a transport failure and a refusal
/// a signing or submission failure.
pub open spec fn failure_kind(stage: Stage, e: CallError) -> ErrorKind {
    match stage {
        Stage::AwaitingAccounts { .. } => ErrorKind::TransportFailure,
        Stage::AwaitingReceipt => ErrorKind::TransportFailure,
        Stage::AwaitingFinality { .. } => ErrorKind::FinalityFailure,
        _ => match e {
            CallError::Transport => ErrorKind::TransportFailure,
            CallError::Rejected => ErrorKind::SigningOrSubmissionFailure,
        },
    }
}

/// The first stage and call of an EVM job.
pub open spec fn evm_start(to: EvmAddress, amount: Amount, token_address: Option<EvmAddress>) -> (
    Stage,
    Request,
) {
    match token_address {
        None => (Stage::AwaitingAccounts { to, amount }, Request::ListAccounts),
        Some(token) => (Stage::AwaitingSigner { token, to, amount }, Request::CheckSigner),
    }
}

/// The first stage and call of a Substrate job.
pub open spec fn substrate_start(to: AccountId, amount: u128, asset_id: Option<u32>) -> (
    Stage,
    Request,
) {
    match asset_id {
        None => (Stage::AwaitingSubmission, Request::SubmitBalanceTransfer { to, amount }),
        Some(asset_id) => (
            Stage::AwaitingSubmission,
            Request::SubmitAssetTransfer { to, asset_id, amount },
        ),
    }
}

/// Whether `r` is the step that a job in `stage` takes on `resp`.
///
/// A native EVM transfer goes from the first signing account (none is a
/// signing failure). A token transfer needs a signer, then sends the amount
/// scaled by ten to the token's decimals (an amount that does not fit in 256
/// bits cannot be sent). A missing receipt is a transport failure. A
/// Substrate job succeeds with the extrinsic hash once finalized. A failed
/// call ends the job with `failure_kind`, and a response that does not answer
/// the pending call with a transport failure.
pub open spec fn advances(stage: Stage, resp: Response, r: Progress) -> bool {
    match resp {
        Response::Failed(e) => r == Progress::Done(Err(failure_kind(stage, e))),
        _ => match (stage, resp) {
            (Stage::AwaitingAccounts { to, amount }, Response::Accounts(v)) => if v@.len() > 0 {
                r == Progress::Call(
                    Stage::AwaitingSend,
                    Request::SendNative { from: v@[0], to, amount },
                )
            } else {
                r == Progress::Done(Err(ErrorKind::SigningOrSubmissionFailure))
            },
            (Stage::AwaitingSigner { token, to, amount }, Response::Signer(b)) => if b {
                r == Progress::Call(
                    Stage::AwaitingDecimals { token, to, amount },
                    Request::ReadDecimals { token },
                )
            } else {
                r == Progress::Done(Err(ErrorKind::SigningOrSubmissionFailure))
            },
            (Stage::AwaitingDecimals { token, to, amount }, Response::Decimals(d)) => if scaled_amount(
                amount@,
                d as nat,
            ) < amount_limit() {
                r matches Progress::Call(
                    Stage::AwaitingSend,
                    Request::SendTokenTransfer { token: t, to: t_to, amount: units },
                ) && t == token && t_to == to && units@ == scaled_amount(amount@, d as nat)
            } else {
                r == Progress::Done(Err(ErrorKind::SigningOrSubmissionFailure))
            },
            (Stage::AwaitingSend, Response::Sent) => r == Progress::Call(
                Stage::AwaitingReceipt,
                Request::AwaitReceipt,
            ),
            (Stage::AwaitingReceipt, Response::Receipt(receipt)) => match receipt {
                Some(rc) => r == Progress::Done(Ok(TxResult::Evm(rc))),
                None => r == Progress::Done(Err(ErrorKind::TransportFailure)),
            },
            (Stage::AwaitingSubmission, Response::Submitted(hash)) => r == Progress::Call(
                Stage::AwaitingFinality { hash },
                Request::WaitFinalized,
            ),
            (Stage::AwaitingFinality { hash }, Response::Finalized { .. }) => r == Progress::Done(
                Ok(TxResult::Substrate(hash)),
            ),
            _ => r == Progress::Done(Err(ErrorKind::TransportFailure)),
        },
    }
}

/// The first stage and call of an EVM job: list the signing accounts for a
/// native transfer, or check for a signer for a token transfer.
pub fn begin_evm(to: EvmAddress, amount: Amount, token_address: Option<EvmAddress>) -> (r: (
    Stage,
    Request,
))
    ensures
        r == evm_start(to, amount, token_address),
{
    match token_address {
        None => (Stage::AwaitingAccounts { to, amount }, Request::ListAccounts),
        Some(token) => (Stage::AwaitingSigner { token, to, amount }, Request::CheckSigner),
    }
}

/// The first stage and call of a Substrate job: submit a balance transfer,
/// or an asset transfer when an asset is named.
pub fn begin_substrate(to: AccountId, amount: u128, asset_id: Option<u32>) -> (r: (
    Stage,
    Request,
))
    ensures
        r == substrate_start(to, amount, asset_id),
{
    match asset_id {
        None => (Stage::AwaitingSubmission, Request::SubmitBalanceTransfer { to, amount }),
        Some(asset_id) => (
            Stage::AwaitingSubmission,
            Request::SubmitAssetTransfer { to, asset_id, amount },
        ),
    }
}

fn fail(stage: Stage, e: CallError) -> (r: ErrorKind)
    ensures
        r == failure_kind(stage, e),
{
    match stage {
        Stage::AwaitingAccounts { .. } => ErrorKind::TransportFailure,
        Stage::AwaitingReceipt => ErrorKind::TransportFailure,
        Stage::AwaitingFinality { .. } => ErrorKind::FinalityFailure,
        _ => match e {
            CallError::Transport => ErrorKind::TransportFailure,
            CallError::Rejected => ErrorKind::SigningOrSubmissionFailure,
        },
    }
}

/// One step of a job: takes the response to the call that `stage` waits on.
/// Every further call lowers `rank`, so a job ends after a bounded number of
/// calls.
pub fn advance(stage: Stage, resp: Response) -> (r: Progress)
    ensures
        advances(stage, resp, r),
        r matches Progress::Call(next, _) ==> rank(next) < rank(stage),
{
    if let Response::Failed(e) = resp {
        return Progress::Done(Err(fail(stage, e)));
    }
    match (stage, resp) {
        (Stage::AwaitingAccounts { to, amount }, Response::Accounts(v)) => {
            if v.len() > 0 {
                Progress::Call(Stage::AwaitingSend, Request::SendNative { from: v[0], to, amount })
            } else {
                Progress::Done(Err(ErrorKind::SigningOrSubmissionFailure))
            }
        },
        (Stage::AwaitingSigner { token, to, amount }, Response::Signer(b)) => {
            if b {
                Progress::Call(
                    Stage::AwaitingDecimals { token, to, amount },
                    Request::ReadDecimals { token },
                )
            } else {
                Progress::Done(Err(ErrorKind::SigningOrSubmissionFailure))
            }
        },
        (Stage::AwaitingDecimals { token, to, amount }, Response::Decimals(d)) => {
            match scale_token_amount(amount, d) {
                Some(units) => Progress::Call(
                    Stage::AwaitingSend,
                    Request::SendTokenTransfer { token, to, amount: units },
                ),
                None => Progress::Done(Err(ErrorKind::SigningOrSubmissionFailure)),
            }
        },
        (Stage::AwaitingSend, Response::Sent) => Progress::Call(
            Stage::AwaitingReceipt,
            Request::AwaitReceipt,
        ),
        (Stage::AwaitingReceipt, Response::Receipt(receipt)) => match receipt {
            Some(rc) => Progress::Done(Ok(TxResult::Evm(rc))),
            None => Progress::Done(Err(ErrorKind::TransportFailure)),
        },
        (Stage::AwaitingSubmission, Response::Submitted(hash)) => Progress::Call(
            Stage::AwaitingFinality { hash },
            Request::WaitFinalized,
        ),
        (Stage::AwaitingFinality { hash }, Response::Finalized { .. }) => Progress::Done(
            Ok(TxResult::Substrate(hash)),
        ),
        _ => Progress::Done(Err(ErrorKind::TransportFailure)),
    }
}

/// A token transfer sends the requested amount times ten to the token's
/// decimals, and a native transfer sends the requested amount unchanged.
pub proof fn lemma_transfer_amounts(
    to: EvmAddress,
    amount: Amount,
    token: EvmAddress,
    decimals: u8,
    accounts: Vec<EvmAddress>,
    token_step: Progress,
    native_step: Progress,
)
    requires
        advances(
            Stage::AwaitingDecimals { token, to, amount },
            Response::Decimals(decimals),
            token_step,
        ),
        advances(evm_start(to, amount, None).0, Response::Accounts(accounts), native_step),
    ensures
        token_step matches Progress::Call(_, Request::SendTokenTransfer { amount: units, .. })
            ==> units@ == amount@ * pow(10, decimals as nat),
        native_step matches Progress::Call(_, Request::SendNative { amount: sent, .. }) ==> sent
            == amount,
{
}

} // verus!
