use std::collections::HashMap;

use faucet_core::amount::Amount;
use faucet_core::executor::{advance, CallError, Progress, Request, Response, Stage};
use faucet_core::processor::{Handles, Step, TransactionProcessingSystem};
use faucet_core::types::{
    AccountId, ErrorKind, EvmAddress, EvmProviders, Receipt, SubstrateProviders, Transaction,
    TxHash, TxResult,
};

type Sys = TransactionProcessingSystem<&'static str, &'static str, u8, u32>;
type Job = Transaction<&'static str, &'static str, u8, u32>;

fn addr(b: u8) -> EvmAddress {
    EvmAddress { bytes: [b; 20] }
}

fn account(b: u8) -> AccountId {
    AccountId { bytes: [b; 32] }
}

fn receipt(b: u8) -> Receipt {
    Receipt { transaction_hash: TxHash { bytes: [b; 32] }, block_number: Some(7), status: Some(1) }
}

fn evm_providers() -> EvmProviders<&'static str> {
    let mut providers = HashMap::new();
    providers.insert(1u64, "evm-1");
    EvmProviders { providers }
}

fn substrate_providers() -> SubstrateProviders<&'static str> {
    let mut providers = HashMap::new();
    providers.insert(1080u64, "tangle");
    SubstrateProviders { providers }
}

fn evm_job(token: Option<EvmAddress>, reply: u32) -> Job {
    Transaction::evm(&evm_providers(), 1, addr(9), Amount::from_u64(100), token, reply).unwrap()
}

fn substrate_job(asset: Option<u32>, reply: u32) -> Job {
    Transaction::substrate(&substrate_providers(), 1080, account(5), 100, asset, 42, reply)
        .unwrap()
}

fn expect_call(step: Step<u32>) -> Request {
    match step {
        Step::Call(r) => r,
        Step::Reply(..) => panic!("expected a call"),
    }
}

fn expect_reply(step: Step<u32>) -> (u32, Result<TxResult, ErrorKind>) {
    match step {
        Step::Reply(s, o) => (s, o),
        Step::Call(_) => panic!("expected a reply"),
    }
}

/// Answers an EVM native job the way a healthy node does.
fn run_evm_native_to_end(sys: &mut Sys, first: Request) -> (u32, Result<TxResult, ErrorKind>) {
    assert_eq!(first, Request::ListAccounts);
    let send = expect_call(sys.on_response(Response::Accounts(vec![addr(1), addr(2)])));
    assert_eq!(send, Request::SendNative { from: addr(1), to: addr(9), amount: Amount::from_u64(100) });
    assert_eq!(expect_call(sys.on_response(Response::Sent)), Request::AwaitReceipt);
    expect_reply(sys.on_response(Response::Receipt(Some(receipt(3)))))
}

#[test]
fn evm_native_job_replies_with_receipt() {
    let mut sys = Sys::new();
    sys.enqueue(evm_job(None, 11));
    let first = sys.start_next().unwrap();
    match sys.handles() {
        Some(Handles::Evm(p)) => assert_eq!(*p, "evm-1"),
        _ => panic!("expected EVM handles"),
    }
    let (sender, outcome) = run_evm_native_to_end(&mut sys, first);
    assert_eq!(sender, 11);
    assert_eq!(outcome, Ok(TxResult::Evm(receipt(3))));
    assert!(!sys.is_running());
}

#[test]
fn evm_token_job_sends_scaled_amount() {
    let mut sys = Sys::new();
    sys.enqueue(evm_job(Some(addr(0xaa)), 12));
    assert_eq!(sys.start_next().unwrap(), Request::CheckSigner);
    let read = expect_call(sys.on_response(Response::Signer(true)));
    assert_eq!(read, Request::ReadDecimals { token: addr(0xaa) });
    let send = expect_call(sys.on_response(Response::Decimals(6)));
    assert_eq!(
        send,
        Request::SendTokenTransfer { token: addr(0xaa), to: addr(9), amount: Amount::from_u64(100_000000) }
    );
    assert_eq!(expect_call(sys.on_response(Response::Sent)), Request::AwaitReceipt);
    let (sender, outcome) = expect_reply(sys.on_response(Response::Receipt(Some(receipt(4)))));
    assert_eq!(sender, 12);
    assert_eq!(outcome, Ok(TxResult::Evm(receipt(4))));
}

#[test]
fn substrate_native_job_replies_with_hash() {
    let mut sys = Sys::new();
    sys.enqueue(substrate_job(None, 13));
    let first = sys.start_next().unwrap();
    assert_eq!(first, Request::SubmitBalanceTransfer { to: account(5), amount: 100 });
    match sys.handles() {
        Some(Handles::Substrate(api, signer)) => assert_eq!((*api, *signer), ("tangle", 42)),
        _ => panic!("expected Substrate handles"),
    }
    let hash = TxHash { bytes: [0x48; 32] };
    assert_eq!(expect_call(sys.on_response(Response::Submitted(hash))), Request::WaitFinalized);
    let (sender, outcome) =
        expect_reply(sys.on_response(Response::Finalized { transfer_event_found: false }));
    assert_eq!(sender, 13);
    assert_eq!(outcome, Ok(TxResult::Substrate(hash)));
}

#[test]
fn substrate_asset_job_submits_asset_transfer() {
    let mut sys = Sys::new();
    sys.enqueue(substrate_job(Some(4), 14));
    let first = sys.start_next().unwrap();
    assert_eq!(first, Request::SubmitAssetTransfer { to: account(5), asset_id: 4, amount: 100 });
}

#[test]
fn transport_error_on_submission_then_next_job_completes() {
    let mut sys = Sys::new();
    sys.enqueue(evm_job(None, 1));
    sys.enqueue(evm_job(None, 2));
    sys.start_next().unwrap();
    expect_call(sys.on_response(Response::Accounts(vec![addr(1)])));
    let (sender, outcome) =
        expect_reply(sys.on_response(Response::Failed(CallError::Transport)));
    assert_eq!(sender, 1);
    assert_eq!(outcome, Err(ErrorKind::TransportFailure));
    let first = sys.start_next().unwrap();
    let (sender, outcome) = run_evm_native_to_end(&mut sys, first);
    assert_eq!(sender, 2);
    assert_eq!(outcome, Ok(TxResult::Evm(receipt(3))));
}

#[test]
fn null_receipt_is_transport_failure() {
    let mut sys = Sys::new();
    sys.enqueue(evm_job(None, 5));
    sys.start_next().unwrap();
    expect_call(sys.on_response(Response::Accounts(vec![addr(1)])));
    expect_call(sys.on_response(Response::Sent));
    let (_, outcome) = expect_reply(sys.on_response(Response::Receipt(None)));
    assert_eq!(outcome, Err(ErrorKind::TransportFailure));
}

#[test]
fn unknown_chain_is_refused_before_enqueue() {
    let evm: Result<Job, ErrorKind> =
        Transaction::evm(&evm_providers(), 5, addr(9), Amount::from_u64(100), None, 1);
    assert!(matches!(evm, Err(ErrorKind::UnsupportedChain { chain_id: 5 })));
    let sub: Result<Job, ErrorKind> =
        Transaction::substrate(&substrate_providers(), 1, account(5), 100, None, 42, 1);
    assert!(matches!(sub, Err(ErrorKind::UnsupportedChain { chain_id: 1 })));
    assert_eq!(evm_providers().get_provider(1), Ok(&"evm-1"));
    assert_eq!(
        substrate_providers().get_provider(7),
        Err(ErrorKind::UnsupportedChain { chain_id: 7 })
    );
}

#[test]
fn dropped_receiver_does_not_stall_next_job() {
    let mut sys: TransactionProcessingSystem<&str, &str, u8, tokio::sync::oneshot::Sender<u32>> =
        TransactionProcessingSystem::new();
    let (tx_a, rx_a) = tokio::sync::oneshot::channel();
    let (tx_b, mut rx_b) = tokio::sync::oneshot::channel();
    let providers = evm_providers();
    sys.enqueue(Transaction::evm(&providers, 1, addr(9), Amount::from_u64(1), None, tx_a).unwrap());
    sys.enqueue(Transaction::evm(&providers, 1, addr(9), Amount::from_u64(1), None, tx_b).unwrap());
    drop(rx_a);
    sys.start_next().unwrap();
    match sys.on_response(Response::Failed(CallError::Transport)) {
        Step::Reply(sender, _) => assert!(sender.send(1).is_err()),
        Step::Call(_) => panic!("expected a reply"),
    }
    assert_eq!(sys.start_next(), Some(Request::ListAccounts));
    match sys.on_response(Response::Failed(CallError::Rejected)) {
        Step::Reply(sender, outcome) => {
            assert_eq!(outcome, Err(ErrorKind::TransportFailure));
            assert!(sender.send(2).is_ok());
        }
        Step::Call(_) => panic!("expected a reply"),
    }
    assert_eq!(rx_b.try_recv(), Ok(2));
}

#[test]
fn jobs_run_in_enqueue_order_one_at_a_time() {
    let mut sys = Sys::new();
    sys.enqueue(substrate_job(None, 1));
    sys.enqueue(evm_job(None, 2));
    sys.enqueue(evm_job(Some(addr(3)), 3));
    assert_eq!(sys.queue_len(), 3);
    let a = sys.start_next().unwrap();
    assert!(matches!(a, Request::SubmitBalanceTransfer { .. }));
    assert_eq!(sys.start_next(), None);
    assert_eq!(sys.queue_len(), 2);
    let (s, _) = expect_reply(sys.on_response(Response::Failed(CallError::Transport)));
    assert_eq!(s, 1);
    assert_eq!(sys.start_next(), Some(Request::ListAccounts));
    let (s, _) = expect_reply(sys.on_response(Response::Accounts(vec![])));
    assert_eq!(s, 2);
    assert_eq!(sys.start_next(), Some(Request::CheckSigner));
    let (s, _) = expect_reply(sys.on_response(Response::Signer(false)));
    assert_eq!(s, 3);
    assert_eq!(sys.start_next(), None);
    assert!(!sys.is_running());
}

#[test]
fn every_job_gets_exactly_one_reply() {
    let mut sys = Sys::new();
    for i in 0..5u32 {
        sys.enqueue(evm_job(None, i));
    }
    let mut replies = Vec::new();
    while let Some(mut req) = sys.start_next() {
        loop {
            let resp = match req {
                Request::ListAccounts => Response::Accounts(vec![addr(1)]),
                Request::SendNative { .. } => Response::Sent,
                _ => Response::Receipt(Some(receipt(1))),
            };
            match sys.on_response(resp) {
                Step::Call(next) => req = next,
                Step::Reply(s, o) => {
                    assert!(o.is_ok());
                    replies.push(s);
                    break;
                }
            }
        }
    }
    assert_eq!(replies, vec![0, 1, 2, 3, 4]);
}

#[test]
fn each_error_kind_from_its_step() {
    let stage = Stage::AwaitingAccounts { to: addr(9), amount: Amount::from_u64(1) };
    assert_eq!(
        advance(stage, Response::Accounts(vec![])),
        Progress::Done(Err(ErrorKind::SigningOrSubmissionFailure))
    );
    assert_eq!(
        advance(stage, Response::Failed(CallError::Transport)),
        Progress::Done(Err(ErrorKind::TransportFailure))
    );
    assert_eq!(
        advance(stage, Response::Failed(CallError::Rejected)),
        Progress::Done(Err(ErrorKind::TransportFailure))
    );
    let send = Stage::AwaitingSend;
    assert_eq!(
        advance(send, Response::Failed(CallError::Rejected)),
        Progress::Done(Err(ErrorKind::SigningOrSubmissionFailure))
    );
    assert_eq!(
        advance(stage, Response::Sent),
        Progress::Done(Err(ErrorKind::TransportFailure))
    );
    assert_eq!(
        advance(Stage::AwaitingReceipt, Response::Failed(CallError::Rejected)),
        Progress::Done(Err(ErrorKind::TransportFailure))
    );
    let hash = TxHash { bytes: [1; 32] };
    assert_eq!(
        advance(Stage::AwaitingFinality { hash }, Response::Failed(CallError::Transport)),
        Progress::Done(Err(ErrorKind::FinalityFailure))
    );
    assert_eq!(
        advance(Stage::AwaitingSubmission, Response::Failed(CallError::Rejected)),
        Progress::Done(Err(ErrorKind::SigningOrSubmissionFailure))
    );
    let big = Stage::AwaitingDecimals { token: addr(2), to: addr(9), amount: Amount { limbs: [u64::MAX; 4] } };
    assert_eq!(
        advance(big, Response::Decimals(18)),
        Progress::Done(Err(ErrorKind::SigningOrSubmissionFailure))
    );
}
