//! The messages on the bus of the darwinia-ethereum bridge.
use vstd::prelude::*;

verus! {

/// A message to the bridge's services.
#[derive(Debug, Clone)]
pub enum DarwiniaEthereumMessage {
    Scan(EthereumScanMessage),
    ToDarwinia(ToDarwiniaLinkedMessage),
}

/// Starting or stopping the Ethereum scanner.
#[derive(Debug, Clone, Copy, PartialEq, Eq)]
pub enum EthereumScanMessage {
    Start,
    Stop,
}

/// A message to the service linked to Darwinia.
#[derive(Debug, Clone, Copy, PartialEq, Eq)]
pub enum ToDarwiniaLinkedMessage {
    SendExtrinsic,
}

/// A message to the relay service.
#[derive(Clone, Debug, Copy, PartialEq, Eq)]
pub enum ToRelayMessage {
    EthereumBlockNumber(u64),
}

/// A message to the extrinsics service.
#[derive(Clone, Debug)]
pub enum ToExtrinsicsMessage {
    Extrinsic(Extrinsic),
}

/// A message signed by the authorities.
pub type EcdsaMessage = [u8; 32];

/// An Ethereum header with its proofs, to affirm on Darwinia, carried in
/// its serialized form.
#[derive(Clone, Debug)]
pub struct EthereumRelayHeaderParcel {
    pub encoded: Vec<u8>,
}

/// The proof of an Ethereum receipt, carried in its serialized form.
#[derive(Clone, Debug)]
pub struct EthereumReceiptProofThing {
    pub encoded: Vec<u8>,
}

/// An Ethereum transaction found by the indexer, carried in its serialized
/// form.
#[derive(Clone, Debug)]
pub struct TransactionEntity {
    pub encoded: Vec<u8>,
}

/// An extrinsic to send to Darwinia.
#[derive(Clone, Debug)]
pub enum Extrinsic {
    Affirm(EthereumRelayHeaderParcel),
    Redeem(EthereumReceiptProofThing, TransactionEntity),
    GuardVote(u64, bool),
    SignAndSendMmrRoot(u32),
    SignAndSendAuthorities(EcdsaMessage),
}

/// A message to the guard service.
#[derive(Clone, Debug, Copy, PartialEq, Eq)]
pub enum ToGuardMessage {
    StartGuard,
}

} // verus!
