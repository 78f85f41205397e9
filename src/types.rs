//! Transfer jobs, their results and errors, and the chain-id registries
//! from which jobs take their client handles.

use crate::amount::Amount;
use std::collections::HashMap;
use vstd::pervasive::cloned;
use vstd::prelude::*;

verus! {

broadcast use vstd::std_specs::hash::group_hash_axioms;

/// A 20-byte EVM account or contract address.
#[derive(Clone, Copy, Debug, PartialEq, Eq)]
pub struct EvmAddress {
    pub bytes: [u8; 20],
}

/// A 32-byte Substrate account identifier.
#[derive(Clone, Copy, Debug, PartialEq, Eq)]
pub struct AccountId {
    pub bytes: [u8; 32],
}

/// A 32-byte transaction or extrinsic hash.
#[derive(Clone, Copy, Debug, PartialEq, Eq)]
pub struct TxHash {
    pub bytes: [u8; 32],
}

/// What an EVM chain reports once a transaction is mined.
#[derive(Clone, Copy, Debug, PartialEq, Eq)]
pub struct Receipt {
    pub transaction_hash: TxHash,
    pub block_number: Option<u64>,
    /// 1 for success, 0 for failure, absent before the Byzantium fork.
    pub status: Option<u64>,
}

/// The success payload of a reply.
#[derive(Clone, Copy, Debug, PartialEq, Eq)]
pub enum TxResult {
    Evm(Receipt),
    Substrate(TxHash),
}

/// Why a transfer was not carried out.
#[derive(Clone, Copy, Debug, PartialEq, Eq)]
pub enum ErrorKind {
    /// No client is configured for the chain; detected before a job exists.
    UnsupportedChain { chain_id: u64 },
    /// A network call failed, or returned no transaction or receipt where one
    /// was required.
    TransportFailure,
    /// Signing, submission or a contract call was refused.
    SigningOrSubmissionFailure,
    /// A Substrate extrinsic did not reach finalized success.
    FinalityFailure,
    /// The reply receiver was gone when the outcome was delivered.
    ReplyDeliveryFailure,
}

/// The EVM clients, by chain id.
pub struct EvmProviders<T> {
    pub providers: HashMap<u64, T>,
}

/// The Substrate runtime clients, by chain id.
pub struct SubstrateProviders<T> {
    pub providers: HashMap<u64, T>,
}

impl<T> EvmProviders<T> {
    /// The client configured for `chain_id`, or `UnsupportedChain`.
    pub fn get_provider(&self, chain_id: u64) -> (r: Result<&T, ErrorKind>)
        ensures
            match r {
                Ok(p) => self.providers@.contains_key(chain_id) && *p == self.providers@[chain_id],
                Err(e) => !self.providers@.contains_key(chain_id) && e == (ErrorKind::UnsupportedChain {
                    chain_id,
                }),
            },
    {
        match self.providers.get(&chain_id) {
            Some(p) => Ok(p),
            None => Err(ErrorKind::UnsupportedChain { chain_id }),
        }
    }
}

impl<T> SubstrateProviders<T> {
    /// The runtime client configured for `chain_id`, or `UnsupportedChain`.
    pub fn get_provider(&self, chain_id: u64) -> (r: Result<&T, ErrorKind>)
        ensures
            match r {
                Ok(p) => self.providers@.contains_key(chain_id) && *p == self.providers@[chain_id],
                Err(e) => !self.providers@.contains_key(chain_id) && e == (ErrorKind::UnsupportedChain {
                    chain_id,
                }),
            },
    {
        match self.providers.get(&chain_id) {
            Some(p) => Ok(p),
            None => Err(ErrorKind::UnsupportedChain { chain_id }),
        }
    }
}

/// A transfer job. Each variant owns its client handle and the sending half
/// of the reply channel (`R`) through which its single outcome goes back.
/// `E` is an EVM client, `S` a Substrate runtime client, `K` a signing key.
#[allow(inconsistent_fields)]
pub enum Transaction<E, S, K, R> {
    Evm {
        provider: E,
        to: EvmAddress,
        amount: Amount,
        /// The token contract; absent for a transfer of the native coin.
        token_address: Option<EvmAddress>,
        result_sender: R,
    },
    Substrate {
        api: S,
        to: AccountId,
        amount: u128,
        /// The asset; absent for a transfer of the native balance.
        asset_id: Option<u32>,
        signer: K,
        result_sender: R,
    },
}

impl<E: Clone, S, K, R> Transaction<E, S, K, R> {
    /// An EVM job on the client registered for `chain_id`; `UnsupportedChain`
    /// when there is none, so that no job names an unknown chain.
    pub fn evm(
        providers: &EvmProviders<E>,
        chain_id: u64,
        to: EvmAddress,
        amount: Amount,
        token_address: Option<EvmAddress>,
        result_sender: R,
    ) -> (r: Result<Self, ErrorKind>)
        ensures
            r is Ok <==> providers.providers@.contains_key(chain_id),
            r matches Err(e) ==> e == (ErrorKind::UnsupportedChain { chain_id }),
            r matches Ok(t) ==> t matches Transaction::Evm {
                provider: t_provider,
                to: t_to,
                amount: t_amount,
                token_address: t_token,
                result_sender: t_sender,
                ..
            } && cloned(providers.providers@[chain_id], t_provider) && t_to == to && t_amount
                == amount && t_token == token_address && t_sender == result_sender,
    {
        match providers.get_provider(chain_id) {
            Ok(p) => Ok(Transaction::Evm {
                provider: p.clone(),
                to,
                amount,
                token_address,
                result_sender,
            }),
            Err(e) => Err(e),
        }
    }
}

impl<E, S: Clone, K, R> Transaction<E, S, K, R> {
    /// A Substrate job on the runtime client registered for `chain_id`;
    /// `UnsupportedChain` when there is none.
    pub fn substrate(
        providers: &SubstrateProviders<S>,
        chain_id: u64,
        to: AccountId,
        amount: u128,
        asset_id: Option<u32>,
        signer: K,
        result_sender: R,
    ) -> (r: Result<Self, ErrorKind>)
        ensures
            r is Ok <==> providers.providers@.contains_key(chain_id),
            r matches Err(e) ==> e == (ErrorKind::UnsupportedChain { chain_id }),
            r matches Ok(t) ==> t matches Transaction::Substrate {
                api: t_api,
                to: t_to,
                amount: t_amount,
                asset_id: t_asset,
                signer: t_signer,
                result_sender: t_sender,
                ..
            } && cloned(providers.providers@[chain_id], t_api) && t_to == to && t_amount
                == amount && t_asset == asset_id && t_signer == signer && t_sender
                == result_sender,
    {
        match providers.get_provider(chain_id) {
            Ok(p) => Ok(Transaction::Substrate {
                api: p.clone(),
                to,
                amount,
                asset_id,
                signer,
                result_sender,
            }),
            Err(e) => Err(e),
        }
    }
}

} // verus!
