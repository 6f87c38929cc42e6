//! The codec: how messages become bytes and bytes become messages.
//!
//! A message travels as a header and a body.  The header holds the magic
//! number of the network, the name of the message in twelve bytes, the length
//! of the body in four bytes, and the first four bytes of the double SHA-256
//! hash of the body.

use sha2::{Digest, Sha256};
use vstd::prelude::*;

use crate::chain::block;
use crate::chain::parameters::Network;
use crate::chain::serialization::MAX_PROTOCOL_MESSAGE_LEN;
use crate::chain::transaction;
use crate::network::protocol::addr_v2::{compact_size_at, read_compact_size, SerializationError};
use crate::network::protocol::bytes::{
    be_digits, be_value, le_digits, le_value, lemma_be_value_of_digits, lemma_le_digits_len,
    lemma_le_value_of_digits, pow256, read_be_u128, read_le, write_be, write_le,
};
use crate::network::protocol::decoder_output::DecoderOutput;
use crate::network::protocol::inv::InventoryHash;
use crate::network::protocol::message::Message;
use crate::network::protocol::types::Nonce;

verus! {

/// The bytes of a hash of 256 bits that is held in two words: the bytes of
/// the first word, then those of the second, the most significant byte first.
pub open spec fn hash_bytes(first: u128, second: u128) -> Seq<u8> {
    be_digits(first as nat, 16) + be_digits(second as nat, 16)
}

/// The number that stands for the kind of an inventory item on the wire.
pub open spec fn inv_code(item: InventoryHash) -> nat {
    match item {
        InventoryHash::Error => 0,
        InventoryHash::Tx(_) => 1,
        InventoryHash::Block(_) => 2,
        InventoryHash::FilteredBlock(_) => 3,
        InventoryHash::Wtx(_) => 5,
    }
}

/// The bytes that follow the code of an inventory item.
pub open spec fn inv_payload(item: InventoryHash) -> Seq<u8> {
    match item {
        InventoryHash::Error => hash_bytes(0, 0),
        InventoryHash::Tx(hash) => hash_bytes(hash.0, hash.1),
        InventoryHash::Block(hash) => hash_bytes(hash.0, hash.1),
        InventoryHash::FilteredBlock(hash) => hash_bytes(hash.0, hash.1),
        InventoryHash::Wtx(wtx_id) => hash_bytes(wtx_id.id.0, wtx_id.id.1) + hash_bytes(
            wtx_id.auth_digest.0,
            wtx_id.auth_digest.1,
        ),
    }
}

/// The bytes of an inventory item: its code in four bytes, the least
/// significant first, and the hash or the two hashes that name the item.
pub open spec fn inv_bytes(item: InventoryHash) -> Seq<u8> {
    le_digits(inv_code(item), 4) + inv_payload(item)
}

/// The bytes of a list of inventory items, one after another.
pub open spec fn inv_list_bytes(items: Seq<InventoryHash>) -> Seq<u8>
    decreases items.len(),
{
    if items.len() == 0 {
        Seq::empty()
    } else {
        inv_bytes(items[0]) + inv_list_bytes(items.drop_first())
    }
}

/// The first word of the hash that stands at `at`.
pub open spec fn first_word_at(bytes: Seq<u8>, at: int) -> u128 {
    be_value(bytes.subrange(at, at + 16)) as u128
}

/// The inventory item that stands at `at`, and the position behind it.
pub open spec fn inv_at(bytes: Seq<u8>, at: int) -> Result<(InventoryHash, int), SerializationError> {
    if at + 4 > bytes.len() {
        Err(SerializationError::Io)
    } else {
        let code = le_value(bytes.subrange(at, at + 4));
        if code != 0 && code != 1 && code != 2 && code != 3 && code != 5 {
            Err(SerializationError::Parse("invalid inventory code"))
        } else {
            let size: int = if code == 5 {
                64
            } else {
                32
            };
            if at + 4 + size > bytes.len() {
                Err(SerializationError::Io)
            } else {
                let first = first_word_at(bytes, at + 4);
                let second = first_word_at(bytes, at + 20);
                let item = if code == 0 {
                    InventoryHash::Error
                } else if code == 1 {
                    InventoryHash::Tx(transaction::Hash(first, second))
                } else if code == 2 {
                    InventoryHash::Block(block::Hash(first, second))
                } else if code == 3 {
                    InventoryHash::FilteredBlock(block::Hash(first, second))
                } else {
                    InventoryHash::Wtx(
                        transaction::WtxId {
                            id: transaction::Hash(first, second),
                            auth_digest: transaction::AuthDigest(
                                first_word_at(bytes, at + 36),
                                first_word_at(bytes, at + 52),
                            ),
                        },
                    )
                };
                Ok((item, at + 4 + size))
            }
        }
    }
}

/// The `remaining` inventory items that stand from `at` on, put behind
/// `read`, and the position behind them.
pub open spec fn inv_list_from(bytes: Seq<u8>, at: int, remaining: nat, read: Seq<InventoryHash>) -> Result<
    (Seq<InventoryHash>, int),
    SerializationError,
>
    decreases remaining,
{
    if remaining == 0 {
        Ok((read, at))
    } else {
        match inv_at(bytes, at) {
            Err(e) => Err(e),
            Ok((item, next)) => inv_list_from(bytes, next, (remaining - 1) as nat, read.push(item)),
        }
    }
}

/// Four and sixteen bytes hold the numbers below 2^32 and 2^128.
pub proof fn lemma_pow256()
    ensures
        pow256(1) == 0x100,
        pow256(2) == 0x1_0000,
        pow256(4) == 0x1_0000_0000,
        pow256(8) == 0x1_0000_0000_0000_0000,
        pow256(16) == 0x1_0000_0000_0000_0000_0000_0000_0000_0000,
{
    reveal_with_fuel(pow256, 17);
}

/// A word that was written is read back.
pub proof fn lemma_word_round_trip(before: Seq<u8>, word: u128, after: Seq<u8>)
    ensures
        first_word_at(before + be_digits(word as nat, 16) + after, before.len() as int) == word,
{
    let bytes = before + be_digits(word as nat, 16) + after;
    lemma_le_digits_len(word as nat, 16);
    lemma_pow256();
    lemma_be_value_of_digits(word as nat, 16);
    assert(bytes.subrange(before.len() as int, before.len() as int + 16) =~= be_digits(word as nat, 16));
}

/// An inventory item that was written is read back.
pub proof fn lemma_inv_round_trip(before: Seq<u8>, item: InventoryHash, after: Seq<u8>)
    ensures
        inv_at(before + inv_bytes(item) + after, before.len() as int) == Ok::<
            (InventoryHash, int),
            SerializationError,
        >((item, (before.len() + inv_bytes(item).len()) as int)),
        inv_bytes(item).len() == if item is Wtx {
            68int
        } else {
            36int
        },
{
    let bytes = before + inv_bytes(item) + after;
    let at = before.len() as int;
    let code = le_digits(inv_code(item), 4);
    lemma_le_digits_len(inv_code(item), 4);
    lemma_pow256();
    lemma_le_value_of_digits(inv_code(item), 4);
    assert(bytes.subrange(at, at + 4) =~= code);
    let words: Seq<u128> = match item {
        InventoryHash::Error => seq![0u128, 0u128],
        InventoryHash::Tx(hash) => seq![hash.0, hash.1],
        InventoryHash::Block(hash) => seq![hash.0, hash.1],
        InventoryHash::FilteredBlock(hash) => seq![hash.0, hash.1],
        InventoryHash::Wtx(wtx_id) => seq![wtx_id.id.0, wtx_id.id.1, wtx_id.auth_digest.0, wtx_id.auth_digest.1],
    };
    lemma_le_digits_len(words[0] as nat, 16);
    lemma_le_digits_len(words[1] as nat, 16);
    let w0 = be_digits(words[0] as nat, 16);
    let w1 = be_digits(words[1] as nat, 16);
    if item is Wtx {
        lemma_le_digits_len(words[2] as nat, 16);
        lemma_le_digits_len(words[3] as nat, 16);
        let w2 = be_digits(words[2] as nat, 16);
        let w3 = be_digits(words[3] as nat, 16);
        assert(inv_bytes(item) =~= code + w0 + w1 + w2 + w3);
        assert(bytes =~= (before + code) + w0 + (w1 + w2 + w3 + after));
        lemma_word_round_trip(before + code, words[0], w1 + w2 + w3 + after);
        assert(bytes =~= (before + code + w0) + w1 + (w2 + w3 + after));
        lemma_word_round_trip(before + code + w0, words[1], w2 + w3 + after);
        assert(bytes =~= (before + code + w0 + w1) + w2 + (w3 + after));
        lemma_word_round_trip(before + code + w0 + w1, words[2], w3 + after);
        assert(bytes =~= (before + code + w0 + w1 + w2) + w3 + after);
        lemma_word_round_trip(before + code + w0 + w1 + w2, words[3], after);
    } else {
        assert(inv_bytes(item) =~= code + w0 + w1);
        assert(bytes =~= (before + code) + w0 + (w1 + after));
        lemma_word_round_trip(before + code, words[0], w1 + after);
        assert(bytes =~= (before + code + w0) + w1 + after);
        lemma_word_round_trip(before + code + w0, words[1], after);
    }
}

/// A list of inventory items that was written is read back.
pub proof fn lemma_inv_list_round_trip(
    before: Seq<u8>,
    items: Seq<InventoryHash>,
    after: Seq<u8>,
    read: Seq<InventoryHash>,
)
    ensures
        inv_list_from(before + inv_list_bytes(items) + after, before.len() as int, items.len(), read) == Ok::<
            (Seq<InventoryHash>, int),
            SerializationError,
        >((read + items, (before.len() + inv_list_bytes(items).len()) as int)),
    decreases items.len(),
{
    let bytes = before + inv_list_bytes(items) + after;
    if items.len() == 0 {
        assert(read + items =~= read);
    } else {
        let first = inv_bytes(items[0]);
        let others = inv_list_bytes(items.drop_first());
        assert(bytes =~= before + first + (others + after));
        lemma_inv_round_trip(before, items[0], others + after);
        assert(bytes =~= (before + first) + others + after);
        lemma_inv_list_round_trip(before + first, items.drop_first(), after, read.push(items[0]));
        assert(read.push(items[0]) + items.drop_first() =~= read + items);
    }
}

/// The bytes of a compact size: a number below `0xfd` is its own byte; a
/// larger number follows the byte `0xfd`, `0xfe` or `0xff` in the two, four
/// or eight bytes that it needs, the least significant first.
pub open spec fn compact_size_bytes(value: u64) -> Seq<u8> {
    if value < 0xfd {
        seq![value as u8]
    } else if value <= 0xffff {
        seq![0xfdu8] + le_digits(value as nat, 2)
    } else if value <= 0xffff_ffff {
        seq![0xfeu8] + le_digits(value as nat, 4)
    } else {
        seq![0xffu8] + le_digits(value as nat, 8)
    }
}

/// A compact size that was written is read back.
pub proof fn lemma_compact_size_round_trip(before: Seq<u8>, value: u64, after: Seq<u8>)
    ensures
        compact_size_at(before + compact_size_bytes(value) + after, before.len() as int) == Ok::<
            (u64, int),
            SerializationError,
        >((value, (before.len() + compact_size_bytes(value).len()) as int)),
        1 <= compact_size_bytes(value).len() <= 9,
{
    let bytes = before + compact_size_bytes(value) + after;
    let at = before.len() as int;
    lemma_pow256();
    if value < 0xfd {
        assert(bytes[at] == value as u8);
    } else {
        let n: nat = if value <= 0xffff {
            2
        } else if value <= 0xffff_ffff {
            4
        } else {
            8
        };
        lemma_le_digits_len(value as nat, n);
        lemma_le_value_of_digits(value as nat, n);
        assert(bytes.subrange(at + 1, at + 1 + n) =~= le_digits(value as nat, n));
        assert(bytes[at] == compact_size_bytes(value)[0]);
    }
}

/// The name of a message that the codec knows.
#[derive(Clone, Copy, Debug, PartialEq, Eq, Hash, Structural)]
pub enum Command {
    Verack,
    Ping,
    Pong,
    GetAddr,
    Mempool,
    Inv,
    GetData,
    NotFound,
}

/// A message as the codec sees it.
pub enum MessageModel {
    Verack,
    Ping(Nonce),
    Pong(Nonce),
    GetAddr,
    Mempool,
    Inv(Seq<InventoryHash>),
    GetData(Seq<InventoryHash>),
    NotFound(Seq<InventoryHash>),
    /// A message that the codec does not carry.
    Unsupported,
}

/// What the codec sees of a message.
pub open spec fn model(message: Message) -> MessageModel {
    match message {
        Message::Verack => MessageModel::Verack,
        Message::Ping(nonce) => MessageModel::Ping(nonce),
        Message::Pong(nonce) => MessageModel::Pong(nonce),
        Message::GetAddr => MessageModel::GetAddr,
        Message::Mempool => MessageModel::Mempool,
        Message::Inv(items) => MessageModel::Inv(items@),
        Message::GetData(items) => MessageModel::GetData(items@),
        Message::NotFound(items) => MessageModel::NotFound(items@),
        _ => MessageModel::Unsupported,
    }
}

/// The four bytes that start every message of `network`.
pub open spec fn magic_of(network: Network) -> Seq<u8> {
    match network {
        Network::Mainnet => seq![0x24u8, 0xe9u8, 0x27u8, 0x64u8],
        Network::Testnet => seq![0xfau8, 0x1au8, 0xf9u8, 0xbfu8],
    }
}

/// The name of a message in twelve bytes: its letters, then zeros.
pub open spec fn command_bytes(command: Command) -> Seq<u8> {
    match command {
        Command::Verack => seq![0x76u8, 0x65u8, 0x72u8, 0x61u8, 0x63u8, 0x6bu8, 0u8, 0u8, 0u8, 0u8, 0u8, 0u8],
        Command::Ping => seq![0x70u8, 0x69u8, 0x6eu8, 0x67u8, 0u8, 0u8, 0u8, 0u8, 0u8, 0u8, 0u8, 0u8],
        Command::Pong => seq![0x70u8, 0x6fu8, 0x6eu8, 0x67u8, 0u8, 0u8, 0u8, 0u8, 0u8, 0u8, 0u8, 0u8],
        Command::GetAddr => seq![0x67u8, 0x65u8, 0x74u8, 0x61u8, 0x64u8, 0x64u8, 0x72u8, 0u8, 0u8, 0u8, 0u8, 0u8],
        Command::Mempool => seq![0x6du8, 0x65u8, 0x6du8, 0x70u8, 0x6fu8, 0x6fu8, 0x6cu8, 0u8, 0u8, 0u8, 0u8, 0u8],
        Command::Inv => seq![0x69u8, 0x6eu8, 0x76u8, 0u8, 0u8, 0u8, 0u8, 0u8, 0u8, 0u8, 0u8, 0u8],
        Command::GetData => seq![0x67u8, 0x65u8, 0x74u8, 0x64u8, 0x61u8, 0x74u8, 0x61u8, 0u8, 0u8, 0u8, 0u8, 0u8],
        Command::NotFound => seq![0x6eu8, 0x6fu8, 0x74u8, 0x66u8, 0x6fu8, 0x75u8, 0x6eu8, 0x64u8, 0u8, 0u8, 0u8, 0u8],
    }
}

/// The message name that the twelve bytes `name` spell, if the codec knows it.
pub open spec fn command_named(name: Seq<u8>) -> Option<Command> {
    if name == command_bytes(Command::Verack) {
        Some(Command::Verack)
    } else if name == command_bytes(Command::Ping) {
        Some(Command::Ping)
    } else if name == command_bytes(Command::Pong) {
        Some(Command::Pong)
    } else if name == command_bytes(Command::GetAddr) {
        Some(Command::GetAddr)
    } else if name == command_bytes(Command::Mempool) {
        Some(Command::Mempool)
    } else if name == command_bytes(Command::Inv) {
        Some(Command::Inv)
    } else if name == command_bytes(Command::GetData) {
        Some(Command::GetData)
    } else if name == command_bytes(Command::NotFound) {
        Some(Command::NotFound)
    } else {
        None
    }
}

/// The name under which a message travels, if the codec carries it.
pub open spec fn command_of(m: MessageModel) -> Option<Command> {
    match m {
        MessageModel::Verack => Some(Command::Verack),
        MessageModel::Ping(_) => Some(Command::Ping),
        MessageModel::Pong(_) => Some(Command::Pong),
        MessageModel::GetAddr => Some(Command::GetAddr),
        MessageModel::Mempool => Some(Command::Mempool),
        MessageModel::Inv(_) => Some(Command::Inv),
        MessageModel::GetData(_) => Some(Command::GetData),
        MessageModel::NotFound(_) => Some(Command::NotFound),
        MessageModel::Unsupported => None,
    }
}

/// The bytes of a counted list of inventory items.
pub open spec fn counted_inv_bytes(items: Seq<InventoryHash>) -> Seq<u8> {
    compact_size_bytes(items.len() as u64) + inv_list_bytes(items)
}

/// The body of a message.
pub open spec fn body_bytes(m: MessageModel) -> Seq<u8> {
    match m {
        MessageModel::Ping(nonce) => le_digits(nonce.0 as nat, 8),
        MessageModel::Pong(nonce) => le_digits(nonce.0 as nat, 8),
        MessageModel::Inv(items) => counted_inv_bytes(items),
        MessageModel::GetData(items) => counted_inv_bytes(items),
        MessageModel::NotFound(items) => counted_inv_bytes(items),
        _ => Seq::empty(),
    }
}

/// Whether the codec can write the message: it carries messages of this
/// kind, and the body is not longer than a message may be.
pub open spec fn encodable(m: MessageModel) -> bool {
    command_of(m).is_some() && body_bytes(m).len() <= MAX_PROTOCOL_MESSAGE_LEN && countable(m)
}

/// Whether the number of the items of the message fits into 64 bits.
pub open spec fn countable(m: MessageModel) -> bool {
    match m {
        MessageModel::Inv(items) | MessageModel::GetData(items) | MessageModel::NotFound(items) => items.len()
            <= u64::MAX,
        _ => true,
    }
}

/// The SHA-256 hash of `data`.
pub uninterp spec fn sha256_of(data: Seq<u8>) -> Seq<u8>;

/// `Sha256::digest`: the SHA-256 hash of the bytes `from..to` of `data`, which has 32 bytes.
#[verifier::external_body]
fn sha256(data: &[u8], from: usize, to: usize) -> (hash: Vec<u8>)
    requires
        from <= to <= data@.len(),
    ensures
        hash@ == sha256_of(data@.subrange(from as int, to as int)),
        hash@.len() == 32,
{
    Sha256::digest(&data[from..to]).to_vec()
}

/// The checksum of a body: the first four bytes of the SHA-256 hash of its SHA-256 hash.
pub open spec fn checksum_of(body: Seq<u8>) -> Seq<u8> {
    let hash = sha256_of(sha256_of(body));
    Seq::new(
        4,
        |i: int|
            if i < hash.len() {
                hash[i]
            } else {
                0u8
            },
    )
}

/// The bytes of a message on `network`: the header, then the body.
pub open spec fn encoded(network: Network, m: MessageModel) -> Seq<u8> {
    let body = body_bytes(m);
    magic_of(network) + command_bytes(command_of(m).unwrap()) + le_digits(body.len(), 4) + checksum_of(body) + body
}

/// The message that a body holds, by the name in the header.
pub open spec fn decoded_body(command: Command, body: Seq<u8>) -> Result<MessageModel, SerializationError> {
    match command {
        Command::Verack => Ok(MessageModel::Verack),
        Command::GetAddr => Ok(MessageModel::GetAddr),
        Command::Mempool => Ok(MessageModel::Mempool),
        Command::Ping | Command::Pong => if body.len() < 8 {
            Err(SerializationError::Io)
        } else {
            let nonce = Nonce(le_value(body.subrange(0, 8)) as u64);
            if command == Command::Ping {
                Ok(MessageModel::Ping(nonce))
            } else {
                Ok(MessageModel::Pong(nonce))
            }
        },
        Command::Inv | Command::GetData | Command::NotFound => match compact_size_at(body, 0) {
            Err(e) => Err(e),
            Ok((count, at)) => match inv_list_from(body, at, count as nat, Seq::empty()) {
                Err(e) => Err(e),
                Ok((items, _)) => if command == Command::Inv {
                    Ok(MessageModel::Inv(items))
                } else if command == Command::GetData {
                    Ok(MessageModel::GetData(items))
                } else {
                    Ok(MessageModel::NotFound(items))
                },
            },
        },
    }
}

/// The length of the header of a message.
pub const HEADER_LEN: usize = 24;

/// What the bytes that have come hold: nothing yet while the header or
/// the body is not whole, or else a message and the number of its bytes.
///
/// The bytes have to start with the magic number of the network, the
/// length of the body must not be over the limit, the checksum has to be
/// that of the body, and the name has to be one that the codec knows.
pub open spec fn decoded(network: Network, bytes: Seq<u8>) -> Result<(Option<MessageModel>, int), SerializationError> {
    if bytes.len() < HEADER_LEN {
        Ok((None, 0))
    } else if bytes.subrange(0, 4) != magic_of(network) {
        Err(SerializationError::Parse("supplied magic did not meet expectations"))
    } else {
        let body_len = le_value(bytes.subrange(16, 20)) as int;
        if body_len > MAX_PROTOCOL_MESSAGE_LEN {
            Err(SerializationError::Parse("body length exceeded maximum size"))
        } else if bytes.len() < HEADER_LEN + body_len {
            Ok((None, 0))
        } else {
            let body = bytes.subrange(HEADER_LEN as int, HEADER_LEN + body_len);
            if bytes.subrange(20, 24) != checksum_of(body) {
                Err(SerializationError::Parse("supplied message checksum does not match computed checksum"))
            } else {
                match command_named(bytes.subrange(4, 16)) {
                    None => Err(SerializationError::Parse("unknown command")),
                    Some(command) => match decoded_body(command, body) {
                        Err(e) => Err(e),
                        Ok(m) => Ok((Some(m), HEADER_LEN + body_len)),
                    },
                }
            }
        }
    }
}

/// The twelve bytes of a message name spell that name and no other.
pub proof fn lemma_command_round_trip(command: Command)
    ensures
        command_named(command_bytes(command)) == Some(command),
        command_bytes(command).len() == 12,
{
    let name = command_bytes(command);
    assert(command_bytes(Command::Verack)[0] == 0x76);
    assert(command_bytes(Command::Ping)[1] == 0x69);
    assert(command_bytes(Command::Pong)[1] == 0x6f);
    assert(command_bytes(Command::GetAddr)[3] == 0x61);
    assert(command_bytes(Command::Mempool)[0] == 0x6d);
    assert(command_bytes(Command::Inv)[0] == 0x69);
    assert(command_bytes(Command::GetData)[3] == 0x64);
    assert(command_bytes(Command::NotFound)[0] == 0x6e);
    assert(command_bytes(Command::Ping)[0] == 0x70);
    assert(command_bytes(Command::Pong)[0] == 0x70);
    assert(command_bytes(Command::GetAddr)[0] == 0x67);
    assert(command_bytes(Command::GetData)[0] == 0x67);
}

/// A body that was written is read back.
pub proof fn lemma_body_round_trip(m: MessageModel)
    requires
        encodable(m),
    ensures
        decoded_body(command_of(m).unwrap(), body_bytes(m)) == Ok::<MessageModel, SerializationError>(m),
{
    let body = body_bytes(m);
    match m {
        MessageModel::Ping(nonce) | MessageModel::Pong(nonce) => {
            lemma_pow256();
            lemma_le_digits_len(nonce.0 as nat, 8);
            lemma_le_value_of_digits(nonce.0 as nat, 8);
            assert(body.subrange(0, 8) =~= body);
        },
        MessageModel::Inv(items) | MessageModel::GetData(items) | MessageModel::NotFound(items) => {
            let count = compact_size_bytes(items.len() as u64);
            let empty = Seq::<u8>::empty();
            assert(body =~= empty + count + inv_list_bytes(items));
            lemma_compact_size_round_trip(empty, items.len() as u64, inv_list_bytes(items));
            assert(body =~= count + inv_list_bytes(items) + empty);
            lemma_inv_list_round_trip(count, items, empty, Seq::empty());
            assert(Seq::<InventoryHash>::empty() + items =~= items);
        },
        _ => {},
    }
}

/// Every message that the codec can write is read back from what was
/// written: the decoder finds the same message, and takes just the bytes of
/// the message, whatever follows them.
pub proof fn law_codec_round_trip(network: Network, m: MessageModel, after: Seq<u8>)
    requires
        encodable(m),
    ensures
        decoded(network, encoded(network, m) + after) == Ok::<(Option<MessageModel>, int), SerializationError>(
            (Some(m), encoded(network, m).len() as int),
        ),
        encoded(network, m).len() == HEADER_LEN + body_bytes(m).len(),
{
    let body = body_bytes(m);
    let command = command_of(m).unwrap();
    let magic = magic_of(network);
    let name = command_bytes(command);
    let length = le_digits(body.len(), 4);
    let checksum = checksum_of(body);
    let bytes = encoded(network, m) + after;
    lemma_command_round_trip(command);
    lemma_le_digits_len(body.len(), 4);
    lemma_pow256();
    lemma_le_value_of_digits(body.len(), 4);
    lemma_body_round_trip(m);
    assert(magic.len() == 4);
    assert(bytes =~= magic + name + length + checksum + body + after);
    assert(bytes.subrange(0, 4) =~= magic);
    assert(bytes.subrange(4, 16) =~= name);
    assert(bytes.subrange(16, 20) =~= length);
    assert(bytes.subrange(20, 24) =~= checksum);
    assert(bytes.subrange(24, 24 + body.len() as int) =~= body);
}

/// Appends the bytes of a hash that is held in two words.
fn write_hash(out: &mut Vec<u8>, first: u128, second: u128)
    ensures
        final(out)@ == old(out)@ + hash_bytes(first, second),
{
    write_be(out, first, 16);
    write_be(out, second, 16);
    proof {
        assert(out@ =~= old(out)@ + hash_bytes(first, second));
    }
}

/// Appends the bytes of an inventory item.
fn write_inv(out: &mut Vec<u8>, item: &InventoryHash)
    ensures
        final(out)@ == old(out)@ + inv_bytes(*item),
{
    match item {
        InventoryHash::Error => {
            write_le(out, 0, 4);
            write_hash(out, 0, 0);
        },
        InventoryHash::Tx(hash) => {
            write_le(out, 1, 4);
            write_hash(out, hash.0, hash.1);
        },
        InventoryHash::Block(hash) => {
            write_le(out, 2, 4);
            write_hash(out, hash.0, hash.1);
        },
        InventoryHash::FilteredBlock(hash) => {
            write_le(out, 3, 4);
            write_hash(out, hash.0, hash.1);
        },
        InventoryHash::Wtx(wtx_id) => {
            write_le(out, 5, 4);
            write_hash(out, wtx_id.id.0, wtx_id.id.1);
            write_hash(out, wtx_id.auth_digest.0, wtx_id.auth_digest.1);
        },
    }
    proof {
        assert(out@ =~= old(out)@ + inv_bytes(*item));
    }
}

/// Appends the bytes of a list of inventory items.
fn write_inv_list(out: &mut Vec<u8>, items: &Vec<InventoryHash>)
    ensures
        final(out)@ == old(out)@ + inv_list_bytes(items@),
{
    let mut i: usize = 0;
    proof {
        assert(items@.skip(0) =~= items@);
    }
    while i < items.len()
        invariant
            i <= items.len(),
            out@ + inv_list_bytes(items@.skip(i as int)) == old(out)@ + inv_list_bytes(items@),
        decreases items.len() - i,
    {
        let ghost before = out@;
        proof {
            let rest = items@.skip(i as int);
            assert(rest.drop_first() =~= items@.skip(i + 1));
            assert(rest[0] == items@[i as int]);
        }
        write_inv(out, &items[i]);
        proof {
            let tail = inv_list_bytes(items@.skip(i + 1));
            assert(out@ + tail =~= before + (inv_bytes(items@[i as int]) + tail));
        }
        i += 1;
    }
    proof {
        assert(out@ + inv_list_bytes(items@.skip(items@.len() as int)) =~= out@);
    }
}

/// Appends the bytes of a compact size.
fn write_compact_size(out: &mut Vec<u8>, value: u64)
    ensures
        final(out)@ == old(out)@ + compact_size_bytes(value),
{
    if value < 0xfd {
        out.push(value as u8);
        proof {
            assert(out@ =~= old(out)@ + compact_size_bytes(value));
        }
    } else {
        let n: usize = if value <= 0xffff {
            out.push(0xfd);
            2
        } else if value <= 0xffff_ffff {
            out.push(0xfe);
            4
        } else {
            out.push(0xff);
            8
        };
        write_le(out, value as u128, n);
        proof {
            assert(out@ =~= old(out)@ + compact_size_bytes(value));
        }
    }
}

/// Reads the inventory item that stands at `at`.
fn read_inv(bytes: &[u8], at: usize) -> (read: Result<(InventoryHash, usize), SerializationError>)
    requires
        at <= bytes@.len(),
    ensures
        read matches Ok((item, next)) ==> inv_at(bytes@, at as int) == Ok::<(InventoryHash, int), SerializationError>(
            (item, next as int),
        ) && at < next <= bytes@.len(),
        read matches Err(e) ==> inv_at(bytes@, at as int) == Err::<(InventoryHash, int), SerializationError>(e),
{
    if bytes.len() - at < 4 {
        return Err(SerializationError::Io);
    }
    let code = read_le(bytes, at, 4);
    if code != 0 && code != 1 && code != 2 && code != 3 && code != 5 {
        return Err(SerializationError::Parse("invalid inventory code"));
    }
    let size: usize = if code == 5 {
        64
    } else {
        32
    };
    if bytes.len() - at - 4 < size {
        return Err(SerializationError::Io);
    }
    let first = read_be_u128(bytes, at + 4);
    let second = read_be_u128(bytes, at + 20);
    let item = if code == 0 {
        InventoryHash::Error
    } else if code == 1 {
        InventoryHash::Tx(transaction::Hash(first, second))
    } else if code == 2 {
        InventoryHash::Block(block::Hash(first, second))
    } else if code == 3 {
        InventoryHash::FilteredBlock(block::Hash(first, second))
    } else {
        InventoryHash::Wtx(
            transaction::WtxId {
                id: transaction::Hash(first, second),
                auth_digest: transaction::AuthDigest(read_be_u128(bytes, at + 36), read_be_u128(bytes, at + 52)),
            },
        )
    };
    Ok((item, at + 4 + size))
}

/// Reads `count` inventory items from `at` on.
fn read_inv_list(bytes: &[u8], at: usize, count: u64) -> (read: Result<Vec<InventoryHash>, SerializationError>)
    requires
        at <= bytes@.len(),
    ensures
        read matches Ok(items) ==> (inv_list_from(bytes@, at as int, count as nat, Seq::empty()) matches Ok(
            (listed, _),
        ) && listed == items@),
        read matches Err(e) ==> inv_list_from(bytes@, at as int, count as nat, Seq::empty()) == Err::<
            (Seq<InventoryHash>, int),
            SerializationError,
        >(e),
{
    let mut items: Vec<InventoryHash> = Vec::new();
    let mut next: usize = at;
    let mut i: u64 = 0;
    while i < count
        invariant
            i <= count,
            next <= bytes@.len(),
            inv_list_from(bytes@, at as int, count as nat, Seq::empty()) == inv_list_from(
                bytes@,
                next as int,
                (count - i) as nat,
                items@,
            ),
        decreases count - i,
    {
        match read_inv(bytes, next) {
            Err(e) => {
                return Err(e);
            },
            Ok((item, behind)) => {
                items.push(item);
                next = behind;
            },
        }
        i += 1;
    }
    Ok(items)
}

/// The first four bytes of the double SHA-256 hash of the bytes `from..to` of `data`.
fn checksum(data: &[u8], from: usize, to: usize) -> (sum: Vec<u8>)
    requires
        from <= to <= data@.len(),
    ensures
        sum@ == checksum_of(data@.subrange(from as int, to as int)),
{
    let once = sha256(data, from, to);
    let twice = sha256(once.as_slice(), 0, 32);
    let mut sum: Vec<u8> = Vec::new();
    sum.push(twice[0]);
    sum.push(twice[1]);
    sum.push(twice[2]);
    sum.push(twice[3]);
    proof {
        assert(once@.subrange(0, 32) =~= once@);
        assert(sum@ =~= checksum_of(data@.subrange(from as int, to as int)));
    }
    sum
}

/// Whether the bytes `at..at + expected.len()` of `bytes` are `expected`.
fn starts_with_at(bytes: &[u8], at: usize, expected: &Vec<u8>) -> (same: bool)
    requires
        at + expected@.len() <= bytes@.len(),
    ensures
        same == (bytes@.subrange(at as int, at + expected@.len()) == expected@),
{
    let total = bytes.len();
    let mut i: usize = 0;
    while i < expected.len()
        invariant
            i <= expected.len(),
            total == bytes@.len(),
            at + expected@.len() <= bytes@.len(),
            forall|j: int| 0 <= j < i ==> bytes@[at + j] == expected@[j],
        decreases expected.len() - i,
    {
        if bytes[at + i] != expected[i] {
            proof {
                assert(bytes@.subrange(at as int, at + expected@.len())[i as int] != expected@[i as int]);
            }
            return false;
        }
        i += 1;
    }
    proof {
        assert(bytes@.subrange(at as int, at + expected@.len()) =~= expected@);
    }
    true
}

/// The four bytes that start every message of `network`.
fn magic(network: Network) -> (bytes: Vec<u8>)
    ensures
        bytes@ == magic_of(network),
{
    let mut bytes: Vec<u8> = Vec::new();
    match network {
        Network::Mainnet => {
            bytes.push(0x24);
            bytes.push(0xe9);
            bytes.push(0x27);
            bytes.push(0x64);
        },
        Network::Testnet => {
            bytes.push(0xfa);
            bytes.push(0x1a);
            bytes.push(0xf9);
            bytes.push(0xbf);
        },
    }
    proof {
        assert(bytes@ =~= magic_of(network));
    }
    bytes
}

/// The name of a message in twelve bytes.
fn command_name(command: Command) -> (bytes: Vec<u8>)
    ensures
        bytes@ == command_bytes(command),
        bytes@.len() == 12,
{
    let letters: [u8; 12] = match command {
        Command::Verack => [0x76, 0x65, 0x72, 0x61, 0x63, 0x6b, 0, 0, 0, 0, 0, 0],
        Command::Ping => [0x70, 0x69, 0x6e, 0x67, 0, 0, 0, 0, 0, 0, 0, 0],
        Command::Pong => [0x70, 0x6f, 0x6e, 0x67, 0, 0, 0, 0, 0, 0, 0, 0],
        Command::GetAddr => [0x67, 0x65, 0x74, 0x61, 0x64, 0x64, 0x72, 0, 0, 0, 0, 0],
        Command::Mempool => [0x6d, 0x65, 0x6d, 0x70, 0x6f, 0x6f, 0x6c, 0, 0, 0, 0, 0],
        Command::Inv => [0x69, 0x6e, 0x76, 0, 0, 0, 0, 0, 0, 0, 0, 0],
        Command::GetData => [0x67, 0x65, 0x74, 0x64, 0x61, 0x74, 0x61, 0, 0, 0, 0, 0],
        Command::NotFound => [0x6e, 0x6f, 0x74, 0x66, 0x6f, 0x75, 0x6e, 0x64, 0, 0, 0, 0],
    };
    let mut bytes: Vec<u8> = Vec::new();
    let mut i: usize = 0;
    while i < 12
        invariant
            i <= 12,
            bytes@ == letters@.take(i as int),
        decreases 12 - i,
    {
        bytes.push(letters[i]);
        proof {
            assert(letters@.take(i + 1) =~= letters@.take(i as int).push(letters@[i as int]));
        }
        i += 1;
    }
    proof {
        assert(letters@.take(12) =~= letters@);
        assert(letters@ =~= command_bytes(command));
    }
    bytes
}

/// The message name that the twelve bytes at `at` spell, if the codec knows it.
fn read_command(bytes: &[u8], at: usize) -> (command: Option<Command>)
    requires
        at + 12 <= bytes@.len(),
    ensures
        command == command_named(bytes@.subrange(at as int, at + 12)),
{
    if starts_with_at(bytes, at, &command_name(Command::Verack)) {
        Some(Command::Verack)
    } else if starts_with_at(bytes, at, &command_name(Command::Ping)) {
        Some(Command::Ping)
    } else if starts_with_at(bytes, at, &command_name(Command::Pong)) {
        Some(Command::Pong)
    } else if starts_with_at(bytes, at, &command_name(Command::GetAddr)) {
        Some(Command::GetAddr)
    } else if starts_with_at(bytes, at, &command_name(Command::Mempool)) {
        Some(Command::Mempool)
    } else if starts_with_at(bytes, at, &command_name(Command::Inv)) {
        Some(Command::Inv)
    } else if starts_with_at(bytes, at, &command_name(Command::GetData)) {
        Some(Command::GetData)
    } else if starts_with_at(bytes, at, &command_name(Command::NotFound)) {
        Some(Command::NotFound)
    } else {
        None
    }
}

/// Reads the message that a body holds, by the name in the header.
fn decode_body(command: Command, body: &[u8]) -> (read: Result<Message, SerializationError>)
    ensures
        read matches Ok(message) ==> decoded_body(command, body@) == Ok::<MessageModel, SerializationError>(
            model(message),
        ),
        read matches Err(e) ==> decoded_body(command, body@) == Err::<MessageModel, SerializationError>(e),
{
    match command {
        Command::Verack => Ok(Message::Verack),
        Command::GetAddr => Ok(Message::GetAddr),
        Command::Mempool => Ok(Message::Mempool),
        Command::Ping | Command::Pong => {
            if body.len() < 8 {
                return Err(SerializationError::Io);
            }
            let nonce = Nonce(read_le(body, 0, 8));
            match command {
                Command::Ping => Ok(Message::Ping(nonce)),
                _ => Ok(Message::Pong(nonce)),
            }
        },
        Command::Inv | Command::GetData | Command::NotFound => {
            let (count, at) = match read_compact_size(body, 0) {
                Ok(read) => read,
                Err(e) => {
                    return Err(e);
                },
            };
            let items = match read_inv_list(body, at, count) {
                Ok(items) => items,
                Err(e) => {
                    return Err(e);
                },
            };
            match command {
                Command::Inv => Ok(Message::Inv(items)),
                Command::GetData => Ok(Message::GetData(items)),
                _ => Ok(Message::NotFound(items)),
            }
        },
    }
}

/// Writes the body of a message, if the codec carries the message.
/// Returns the name under which the message travels.
fn encode_body(message: &Message, body: &mut Vec<u8>) -> (command: Option<Command>)
    requires
        old(body)@.len() == 0,
    ensures
        command == command_of(model(*message)),
        command.is_some() ==> final(body)@ == body_bytes(model(*message)),
        countable(model(*message)),
{
    match message {
        Message::Verack => Some(Command::Verack),
        Message::GetAddr => Some(Command::GetAddr),
        Message::Mempool => Some(Command::Mempool),
        Message::Ping(nonce) => {
            write_le(body, nonce.0 as u128, 8);
            proof {
                assert(body@ =~= body_bytes(model(*message)));
            }
            Some(Command::Ping)
        },
        Message::Pong(nonce) => {
            write_le(body, nonce.0 as u128, 8);
            proof {
                assert(body@ =~= body_bytes(model(*message)));
            }
            Some(Command::Pong)
        },
        Message::Inv(items) => {
            write_compact_size(body, items.len() as u64);
            write_inv_list(body, items);
            proof {
                assert(body@ =~= body_bytes(model(*message)));
            }
            Some(Command::Inv)
        },
        Message::GetData(items) => {
            write_compact_size(body, items.len() as u64);
            write_inv_list(body, items);
            proof {
                assert(body@ =~= body_bytes(model(*message)));
            }
            Some(Command::GetData)
        },
        Message::NotFound(items) => {
            write_compact_size(body, items.len() as u64);
            write_inv_list(body, items);
            proof {
                assert(body@ =~= body_bytes(model(*message)));
            }
            Some(Command::NotFound)
        },
        _ => None,
    }
}

/// Appends `bytes` to `out`.
fn append(out: &mut Vec<u8>, bytes: &Vec<u8>)
    ensures
        final(out)@ == old(out)@ + bytes@,
{
    let mut i: usize = 0;
    while i < bytes.len()
        invariant
            i <= bytes.len(),
            out@ == old(out)@ + bytes@.take(i as int),
        decreases bytes.len() - i,
    {
        out.push(bytes[i]);
        proof {
            assert(old(out)@ + bytes@.take(i + 1) =~= (old(out)@ + bytes@.take(i as int)).push(bytes@[i as int]));
        }
        i += 1;
    }
    proof {
        assert(bytes@.take(bytes@.len() as int) =~= bytes@);
    }
}

/// The bytes `from..to` of `bytes`.
fn copy_bytes(bytes: &[u8], from: usize, to: usize) -> (part: Vec<u8>)
    requires
        from <= to <= bytes@.len(),
    ensures
        part@ == bytes@.subrange(from as int, to as int),
{
    let mut part: Vec<u8> = Vec::new();
    let mut i: usize = from;
    while i < to
        invariant
            from <= i <= to <= bytes@.len(),
            part@ == bytes@.subrange(from as int, i as int),
        decreases to - i,
    {
        part.push(bytes[i]);
        proof {
            assert(bytes@.subrange(from as int, i + 1) =~= bytes@.subrange(from as int, i as int).push(
                bytes@[i as int],
            ));
        }
        i += 1;
    }
    part
}

/// The codec of one network.
#[derive(Clone, Copy, Debug, PartialEq, Eq, Structural)]
pub struct Codec {
    pub network: Network,
}

impl Codec {
    /// The codec of `network`.
    pub fn new(network: Network) -> (codec: Self)
        ensures
            codec.network == network,
    {
        Codec { network }
    }

    /// Appends the bytes of `message` to `dst`.  A message that the codec
    /// does not carry, or whose body is too long, is turned down, and `dst`
    /// stays as it is.
    pub fn encode(&self, message: &Message, dst: &mut Vec<u8>) -> (written: Result<(), SerializationError>)
        ensures
            encodable(model(*message)) ==> written.is_ok() && final(dst)@ == old(dst)@ + encoded(
                self.network,
                model(*message),
            ),
            !encodable(model(*message)) ==> written.is_err() && final(dst)@ == old(dst)@,
    {
        let mut body: Vec<u8> = Vec::new();
        let command = match encode_body(message, &mut body) {
            Some(command) => command,
            None => {
                return Err(SerializationError::Parse("unsupported message"));
            },
        };
        if body.len() > MAX_PROTOCOL_MESSAGE_LEN {
            return Err(SerializationError::Parse("body length exceeded maximum size"));
        }
        let sum = checksum(body.as_slice(), 0, body.len());
        proof {
            assert(body@.subrange(0, body@.len() as int) =~= body@);
        }
        append(dst, &magic(self.network));
        append(dst, &command_name(command));
        write_le(dst, body.len() as u128, 4);
        append(dst, &sum);
        append(dst, &body);
        Ok(())
    }

    /// Reads the message at the front of `src`, if all of its bytes have
    /// come.  Returns the message and the number of its bytes.
    pub fn decode(&self, src: &[u8]) -> (read: Result<(DecoderOutput, usize), SerializationError>)
        ensures
            read matches Err(e) ==> decoded(self.network, src@) == Err::<(Option<MessageModel>, int), SerializationError>(
                e,
            ),
            read matches Ok((output, consumed)) ==> match output {
                DecoderOutput::Incomplete => consumed == 0 && decoded(self.network, src@) == Ok::<
                    (Option<MessageModel>, int),
                    SerializationError,
                >((None, 0)),
                DecoderOutput::Complete(message) => decoded(self.network, src@) == Ok::<
                    (Option<MessageModel>, int),
                    SerializationError,
                >((Some(model(message)), consumed as int)),
            },
    {
        if src.len() < HEADER_LEN {
            return Ok((DecoderOutput::Incomplete, 0));
        }
        if !starts_with_at(src, 0, &magic(self.network)) {
            return Err(SerializationError::Parse("supplied magic did not meet expectations"));
        }
        let body_len = read_le(src, 16, 4);
        if body_len > MAX_PROTOCOL_MESSAGE_LEN as u64 {
            return Err(SerializationError::Parse("body length exceeded maximum size"));
        }
        let body_len = body_len as usize;
        if src.len() - HEADER_LEN < body_len {
            return Ok((DecoderOutput::Incomplete, 0));
        }
        let end = HEADER_LEN + body_len;
        let sum = checksum(src, HEADER_LEN, end);
        if !starts_with_at(src, 20, &sum) {
            return Err(
                SerializationError::Parse("supplied message checksum does not match computed checksum"),
            );
        }
        let command = match read_command(src, 4) {
            Some(command) => command,
            None => {
                return Err(SerializationError::Parse("unknown command"));
            },
        };
        let body = copy_bytes(src, HEADER_LEN, end);
        match decode_body(command, body.as_slice()) {
            Ok(message) => Ok((DecoderOutput::Complete(message), end)),
            Err(e) => Err(e),
        }
    }
}

} // verus!
