use std::sync::Arc;

use zebra_core::chain::block;
use zebra_core::chain::orchard::{Address, Diversifier, TransmissionKey};
use zebra_core::chain::transaction;
use zebra_core::chain::transaction::{Transaction, UnminedTx, UnminedTxId};
use zebra_core::network::constants::USER_AGENT;
use zebra_core::network::peer::connection::PeerMessage;
use zebra_core::network::protocol::decoder_output::DecoderOutput;
use zebra_core::network::protocol::inv::InventoryHash;
use zebra_core::network::protocol::message::Message;
use zebra_core::network::protocol::types::{Nonce, PeerServices};
use zebra_core::rpc::methods::{get_info, GetBlockChainInfo, GetInfo, SentTransactionHash};

#[test]
fn orchard_address_has_the_raw_encoding() {
    let diversifier = Diversifier((1..=11).collect());
    let transmission_key = TransmissionKey(vec![0xab; 32]);
    let address = Address::new(diversifier.clone(), transmission_key.clone());
    assert_eq!(address, Address { diversifier, transmission_key });
    let bytes = address.to_bytes();
    assert_eq!(bytes.len(), 43);
    assert_eq!(&bytes[..11], &[1, 2, 3, 4, 5, 6, 7, 8, 9, 10, 11]);
    assert_eq!(&bytes[11..], &[0xab; 32]);
}

#[test]
fn decoder_output_holds_a_message_or_nothing() {
    match DecoderOutput::from_message(Message::Ping(Nonce(3))).into_complete_message() {
        Some(Message::Ping(nonce)) => assert_eq!(nonce, Nonce(3)),
        _ => panic!("the message is lost"),
    }
    assert!(DecoderOutput::Incomplete.into_complete_message().is_none());
}

#[test]
fn messages_are_classified() {
    let block_hash = block::Hash(0, 1);
    let tx_hash = transaction::Hash(0, 2);
    let wtx_id = transaction::WtxId { id: tx_hash, auth_digest: transaction::AuthDigest(0, 3) };
    let tx = |id: UnminedTxId| UnminedTx {
        id,
        transaction: Arc::new(Transaction {
            version: 5,
            inputs: vec![],
            outputs: vec![],
            joinsplits: vec![],
            sapling_shielded_data: None,
            orchard_shielded_data: None,
        }),
        size: 0,
        miner_fee: 0,
    };
    assert_eq!(Message::Ping(Nonce(1)).classify(), PeerMessage::Ping(Nonce(1)));
    assert_eq!(Message::Pong(Nonce(1)).classify(), PeerMessage::Pong(Nonce(1)));
    assert_eq!(Message::GetAddr.classify(), PeerMessage::GetAddr);
    assert_eq!(Message::Addr(vec![]).classify(), PeerMessage::Addr);
    assert_eq!(Message::Mempool.classify(), PeerMessage::Mempool);
    assert_eq!(Message::Verack.classify(), PeerMessage::Other);
    assert_eq!(Message::Reject.classify(), PeerMessage::Other);
    assert_eq!(Message::GetData(vec![]).classify(), PeerMessage::GetData);
    assert_eq!(Message::NotFound(vec![]).classify(), PeerMessage::NotFound);
    assert_eq!(
        Message::GetBlocks { known_blocks: vec![block_hash], stop: None }.classify(),
        PeerMessage::GetBlocks
    );
    assert_eq!(Message::Block(block_hash).classify(), PeerMessage::Item(InventoryHash::Block(block_hash)));
    assert_eq!(
        Message::Tx(tx(UnminedTxId::Legacy(tx_hash))).classify(),
        PeerMessage::Item(InventoryHash::Tx(tx_hash))
    );
    assert_eq!(
        Message::Tx(tx(UnminedTxId::Witnessed(wtx_id))).classify(),
        PeerMessage::Item(InventoryHash::Wtx(wtx_id))
    );
    assert_eq!(Message::Inv(vec![]).classify(), PeerMessage::Other);
    assert_eq!(
        Message::Inv(vec![InventoryHash::Block(block_hash), InventoryHash::Block(block::Hash(9, 9))]).classify(),
        PeerMessage::BlockHashes
    );
    assert_eq!(
        Message::Inv(vec![InventoryHash::Tx(tx_hash), InventoryHash::Wtx(wtx_id)]).classify(),
        PeerMessage::TransactionIds
    );
    assert_eq!(
        Message::Inv(vec![InventoryHash::Tx(tx_hash), InventoryHash::Block(block_hash)]).classify(),
        PeerMessage::Other
    );
    assert_eq!(Message::Inv(vec![InventoryHash::Error]).classify(), PeerMessage::Other);
    assert_eq!(
        Message::Inv(vec![InventoryHash::Block(block_hash), InventoryHash::FilteredBlock(block_hash)]).classify(),
        PeerMessage::Other
    );
}

#[test]
fn peer_services_keep_known_bits_only() {
    assert_eq!(PeerServices::from_bits_truncate(0), PeerServices::empty());
    assert_eq!(PeerServices::from_bits_truncate(1), PeerServices::node_network());
    assert_eq!(PeerServices::from_bits_truncate(u64::MAX), PeerServices::node_network());
    assert_eq!(PeerServices::from_bits_truncate(0xfffe), PeerServices::default());
}

#[test]
fn rpc_get_info() {
    let info = get_info("1.0.0-test".to_string(), USER_AGENT.to_string());
    assert_eq!(info, GetInfo { build: "1.0.0-test".to_string(), subversion: "/Zebra:1.0.0/".to_string() });
    let chain = GetBlockChainInfo { chain: "main".to_string() };
    assert_eq!(chain.chain, "main");
    assert_eq!(SentTransactionHash("00ff".to_string()).0, "00ff");
}
