use zebra_core::chain::block;
use zebra_core::chain::parameters::Network;
use zebra_core::chain::transaction;
use zebra_core::network::protocol::addr_v2::SerializationError;
use zebra_core::network::protocol::codec::{Codec, HEADER_LEN};
use zebra_core::network::protocol::decoder_output::DecoderOutput;
use zebra_core::network::protocol::inv::InventoryHash;
use zebra_core::network::protocol::message::Message;
use zebra_core::network::protocol::types::Nonce;

fn items() -> Vec<InventoryHash> {
    vec![
        InventoryHash::Block(block::Hash(0x0102_0304_0506_0708_090a_0b0c_0d0e_0f10, u128::MAX)),
        InventoryHash::Tx(transaction::Hash(0, 1)),
        InventoryHash::Error,
        InventoryHash::FilteredBlock(block::Hash(u128::MAX, 0)),
        InventoryHash::Wtx(transaction::WtxId {
            id: transaction::Hash(7, 8),
            auth_digest: transaction::AuthDigest(9, 10),
        }),
    ]
}

fn many_items(count: u128) -> Vec<InventoryHash> {
    (0..count).map(|n| InventoryHash::Block(block::Hash(n, n * n))).collect()
}

fn supported_messages() -> Vec<Message> {
    vec![
        Message::Verack,
        Message::GetAddr,
        Message::Mempool,
        Message::Ping(Nonce(0)),
        Message::Ping(Nonce(0x0102_0304_0506_0708)),
        Message::Pong(Nonce(u64::MAX)),
        Message::Inv(vec![]),
        Message::Inv(items()),
        Message::GetData(items()),
        Message::NotFound(items()),
        Message::Inv(many_items(252)),
        Message::GetData(many_items(253)),
        Message::NotFound(many_items(1000)),
    ]
}

/// Test if a [`Message`] is not changed after encoding and decoding it.
#[test]
fn message_roundtrip() {
    for network in [Network::Mainnet, Network::Testnet] {
        let codec = Codec::new(network);
        for message in supported_messages() {
            let mut bytes = Vec::new();

            let encoding_result = codec.encode(&message, &mut bytes);

            assert!(encoding_result.is_ok());

            let decoded = codec.decode(&bytes);

            assert_eq!(decoded, Ok((DecoderOutput::Complete(message), bytes.len())));
        }
    }
}

#[test]
fn messages_are_read_one_after_another() {
    let codec = Codec::new(Network::Mainnet);
    let mut bytes = vec![];
    for message in supported_messages() {
        codec.encode(&message, &mut bytes).unwrap();
    }
    let mut at = 0;
    for message in supported_messages() {
        let (output, consumed) = codec.decode(&bytes[at..]).unwrap();
        assert_eq!(output.into_complete_message(), Some(message));
        at += consumed;
    }
    assert_eq!(at, bytes.len());
    assert_eq!(codec.decode(&bytes[at..]), Ok((DecoderOutput::Incomplete, 0)));
}

#[test]
fn verack_has_the_known_bytes() {
    let mut bytes = vec![];
    Codec::new(Network::Mainnet).encode(&Message::Verack, &mut bytes).unwrap();
    let mut expected = vec![0x24, 0xe9, 0x27, 0x64];
    expected.extend_from_slice(b"verack\0\0\0\0\0\0");
    expected.extend_from_slice(&[0, 0, 0, 0]);
    // The double SHA-256 hash of nothing starts with these bytes.
    expected.extend_from_slice(&[0x5d, 0xf6, 0xe0, 0xe2]);
    assert_eq!(bytes, expected);
    assert_eq!(bytes.len(), HEADER_LEN);

    let mut bytes = vec![0xaa];
    Codec::new(Network::Testnet).encode(&Message::Ping(Nonce(0x0102_0304_0506_0708)), &mut bytes).unwrap();
    assert_eq!(&bytes[..5], &[0xaa, 0xfa, 0x1a, 0xf9, 0xbf]);
    assert_eq!(&bytes[5..17], b"ping\0\0\0\0\0\0\0\0");
    assert_eq!(&bytes[17..21], &[8, 0, 0, 0]);
    assert_eq!(&bytes[25..], &[8, 7, 6, 5, 4, 3, 2, 1]);
}

#[test]
fn inventory_items_have_the_known_bytes() {
    let mut bytes = vec![];
    let item = InventoryHash::Block(block::Hash(0x0102_0304_0506_0708_090a_0b0c_0d0e_0f10, 0xff));
    Codec::new(Network::Mainnet).encode(&Message::Inv(vec![item]), &mut bytes).unwrap();
    let body = &bytes[HEADER_LEN..];
    assert_eq!(body.len(), 1 + 36);
    assert_eq!(&body[..5], &[1, 2, 0, 0, 0]);
    assert_eq!(&body[5..21], &[1, 2, 3, 4, 5, 6, 7, 8, 9, 10, 11, 12, 13, 14, 15, 16]);
    assert_eq!(&body[21..], &[0, 0, 0, 0, 0, 0, 0, 0, 0, 0, 0, 0, 0, 0, 0, 0xff]);
    assert_eq!(&bytes[4..16], b"inv\0\0\0\0\0\0\0\0\0");
    assert_eq!(&bytes[16..20], &[37, 0, 0, 0]);
}

#[test]
fn incomplete_messages_wait_for_more_bytes() {
    let codec = Codec::new(Network::Mainnet);
    let mut bytes = vec![];
    codec.encode(&Message::GetData(items()), &mut bytes).unwrap();
    for len in 0..bytes.len() {
        assert_eq!(codec.decode(&bytes[..len]), Ok((DecoderOutput::Incomplete, 0)), "{}", len);
    }
    assert!(codec.decode(&bytes).is_ok());
}

#[test]
fn damaged_messages_are_rejected() {
    let codec = Codec::new(Network::Mainnet);
    let mut bytes = vec![];
    codec.encode(&Message::Inv(items()), &mut bytes).unwrap();

    // Another network.
    assert_eq!(
        Codec::new(Network::Testnet).decode(&bytes),
        Err(SerializationError::Parse("supplied magic did not meet expectations"))
    );
    // A byte of the body, or of the checksum, is changed.
    for at in [20, 23, HEADER_LEN, bytes.len() - 1] {
        let mut damaged = bytes.clone();
        damaged[at] ^= 1;
        assert_eq!(
            codec.decode(&damaged),
            Err(SerializationError::Parse("supplied message checksum does not match computed checksum"))
        );
    }
    // A name that the codec does not know.
    let mut renamed = bytes.clone();
    renamed[4] = b'x';
    assert_eq!(codec.decode(&renamed), Err(SerializationError::Parse("unknown command")));
    // A body that is longer than a message may be.
    let mut long = bytes.clone();
    long[16..20].copy_from_slice(&(2 * 1024 * 1024 + 1u32).to_le_bytes());
    assert_eq!(codec.decode(&long), Err(SerializationError::Parse("body length exceeded maximum size")));
    let mut long = bytes.clone();
    long[16..20].copy_from_slice(&(2 * 1024 * 1024u32).to_le_bytes());
    assert_eq!(codec.decode(&long), Ok((DecoderOutput::Incomplete, 0)));
}

/// A message of the name `name` with the body `body`, which has eight
/// bytes.  The checksum is that of a `ping` with the same body.
fn frame(codec: &Codec, name: &[u8; 12], body: &[u8; 8]) -> Vec<u8> {
    let mut ping = vec![];
    codec.encode(&Message::Ping(Nonce(u64::from_le_bytes(*body))), &mut ping).unwrap();
    let mut bytes = ping[..4].to_vec();
    bytes.extend_from_slice(name);
    bytes.extend_from_slice(&ping[16..]);
    bytes
}

#[test]
fn bodies_are_checked() {
    let codec = Codec::new(Network::Mainnet);
    // An inventory list of eight bytes: a count of one, and seven bytes of an item.
    let body = [1u8, 2, 0, 0, 0, 9, 9, 9];
    assert_eq!(codec.decode(&frame(&codec, b"inv\0\0\0\0\0\0\0\0\0", &body)), Err(SerializationError::Io));
    // An inventory code that does not exist.
    let body = [1u8, 4, 0, 0, 0, 9, 9, 9];
    assert_eq!(
        codec.decode(&frame(&codec, b"getdata\0\0\0\0\0", &body)),
        Err(SerializationError::Parse("invalid inventory code"))
    );
    let body = [1u8, 6, 0, 0, 0, 9, 9, 9];
    assert_eq!(
        codec.decode(&frame(&codec, b"notfound\0\0\0\0", &body)),
        Err(SerializationError::Parse("invalid inventory code"))
    );
    // A count in a form that is too long.
    let body = [0xfdu8, 1, 0, 0, 0, 9, 9, 9];
    assert_eq!(
        codec.decode(&frame(&codec, b"inv\0\0\0\0\0\0\0\0\0", &body)),
        Err(SerializationError::Parse("non-canonical CompactSize"))
    );
    // A count of nothing: what follows in the body is not read.
    let body = [0u8, 1, 0, 0, 0, 9, 9, 9];
    assert_eq!(
        codec.decode(&frame(&codec, b"inv\0\0\0\0\0\0\0\0\0", &body)),
        Ok((DecoderOutput::Complete(Message::Inv(vec![])), HEADER_LEN + 8))
    );
    // The same body as a pong.
    assert_eq!(
        codec.decode(&frame(&codec, b"pong\0\0\0\0\0\0\0\0", &body)),
        Ok((DecoderOutput::Complete(Message::Pong(Nonce(0x0909_0900_0000_0100))), HEADER_LEN + 8))
    );
    // A message without a body may have one.
    assert_eq!(
        codec.decode(&frame(&codec, b"mempool\0\0\0\0\0", &body)),
        Ok((DecoderOutput::Complete(Message::Mempool), HEADER_LEN + 8))
    );
}

#[test]
fn unsupported_messages_are_not_written() {
    let codec = Codec::new(Network::Mainnet);
    for message in [
        Message::Reject,
        Message::Addr(vec![]),
        Message::Block(block::Hash(1, 2)),
        Message::GetBlocks { known_blocks: vec![], stop: None },
    ] {
        let mut bytes = vec![1, 2, 3];
        assert_eq!(codec.encode(&message, &mut bytes), Err(SerializationError::Parse("unsupported message")));
        assert_eq!(bytes, vec![1, 2, 3]);
    }
    // A body of more than 2 MiB.
    let mut bytes = vec![];
    let too_many = Message::Inv(many_items(2 * 1024 * 1024 / 36 + 1));
    assert_eq!(
        codec.encode(&too_many, &mut bytes),
        Err(SerializationError::Parse("body length exceeded maximum size"))
    );
    assert!(bytes.is_empty());
}
