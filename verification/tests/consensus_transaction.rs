use zebra_core::chain::block;
use zebra_core::chain::orchard;
use zebra_core::chain::parameters::Network;
use zebra_core::chain::sapling;
use zebra_core::chain::sprout;
use zebra_core::chain::transaction;
use zebra_core::chain::transaction::Transaction;
use zebra_core::chain::transparent;
use zebra_core::consensus::check;
use zebra_core::consensus::error::TransactionError;

const V5_TRANSACTION_VERSION: u32 = 5;

fn accepting_script() -> Vec<u8> {
    vec![1, 1]
}

fn output(value: u64) -> transparent::Output {
    transparent::Output { value, lock_script: accepting_script() }
}

fn prev_out(n: u128, index: u32) -> transparent::Input {
    transparent::Input::PrevOut {
        outpoint: transparent::OutPoint { hash: transaction::Hash(0, n), index },
        unlock_script: accepting_script(),
        sequence: 0xffffffff,
    }
}

fn coinbase(height: u32) -> Transaction {
    Transaction {
        version: V5_TRANSACTION_VERSION,
        inputs: vec![transparent::Input::Coinbase {
            height: block::Height(height),
            data: vec![],
            sequence: 0xffffffff,
        }],
        outputs: vec![output(1_250_000_000), output(250_000_000)],
        joinsplits: vec![],
        sapling_shielded_data: None,
        orchard_shielded_data: None,
    }
}

/// Version 5 transactions of the shapes that the blocks of a network hold:
/// coinbase transactions, transparent transfers, transactions that only
/// shield or only unshield value, and transactions whose JoinSplits are gone.
fn fake_v5_transactions_for_network(network: Network) -> Vec<Transaction> {
    let first_height = match network {
        Network::Mainnet => 0,
        Network::Testnet => 100,
    };
    let empty = Transaction {
        version: V5_TRANSACTION_VERSION,
        inputs: vec![],
        outputs: vec![],
        joinsplits: vec![],
        sapling_shielded_data: None,
        orchard_shielded_data: None,
    };
    let transfer = Transaction {
        version: V5_TRANSACTION_VERSION,
        inputs: vec![prev_out(1, 0), prev_out(2, 1)],
        outputs: vec![output(10)],
        joinsplits: vec![],
        sapling_shielded_data: None,
        orchard_shielded_data: None,
    };
    let only_outputs = Transaction {
        version: V5_TRANSACTION_VERSION,
        inputs: vec![],
        outputs: vec![output(7)],
        joinsplits: vec![],
        sapling_shielded_data: None,
        orchard_shielded_data: None,
    };
    let only_sapling_outputs = Transaction {
        version: V5_TRANSACTION_VERSION,
        inputs: vec![],
        outputs: vec![],
        joinsplits: vec![],
        sapling_shielded_data: Some(sapling::ShieldedData { spends: vec![], output_count: 2 }),
        orchard_shielded_data: None,
    };
    let only_inputs = Transaction {
        version: V5_TRANSACTION_VERSION,
        inputs: vec![prev_out(3, 0)],
        outputs: vec![],
        joinsplits: vec![],
        sapling_shielded_data: None,
        orchard_shielded_data: None,
    };
    let sapling_transfer = Transaction {
        version: V5_TRANSACTION_VERSION,
        inputs: vec![],
        outputs: vec![],
        joinsplits: vec![],
        sapling_shielded_data: Some(sapling::ShieldedData {
            spends: vec![sapling::Spend { nullifier: sapling::Nullifier(0, 9) }],
            output_count: 1,
        }),
        orchard_shielded_data: None,
    };
    vec![
        coinbase(first_height),
        transfer,
        only_outputs,
        only_sapling_outputs,
        only_inputs,
        sapling_transfer,
        empty,
        coinbase(first_height + 1),
    ]
}

/// Puts Orchard shielded data with one action into the transaction.
fn insert_fake_orchard_shielded_data(transaction: &mut Transaction) -> &mut orchard::ShieldedData {
    transaction.orchard_shielded_data = Some(orchard::ShieldedData {
        flags: orchard::Flags { enable_spends: false, enable_outputs: false },
        actions: vec![orchard::Action { nullifier: orchard::Nullifier(0, 1) }],
    });
    transaction.orchard_shielded_data.as_mut().unwrap()
}

fn sapling_spend_count(transaction: &Transaction) -> usize {
    transaction.sapling_spend_count()
}

#[test]
fn v5_fake_transactions() {
    let networks = vec![Network::Mainnet, Network::Testnet];

    for network in networks {
        for transaction in fake_v5_transactions_for_network(network) {
            match check::has_inputs_and_outputs(&transaction) {
                Ok(()) => (),
                Err(TransactionError::NoInputs) | Err(TransactionError::NoOutputs) => (),
                Err(_) => panic!("error must be NoInputs or NoOutputs"),
            };

            // make sure there are no joinsplits nor spends in coinbase
            check::coinbase_tx_no_prevout_joinsplit_spend(&transaction).unwrap();

            if transaction.version != V5_TRANSACTION_VERSION {
                panic!("we should have no tx other than 5");
            }
        }
    }
}

#[test]
fn fake_v5_transaction_with_orchard_actions_has_inputs_and_outputs() {
    // Find a transaction with no inputs or outputs to use as base
    let mut transaction = fake_v5_transactions_for_network(Network::Mainnet)
        .into_iter()
        .rev()
        .find(|transaction| {
            transaction.inputs.is_empty()
                && transaction.outputs.is_empty()
                && sapling_spend_count(transaction) == 0
                && transaction.sapling_outputs() == 0
                && transaction.joinsplit_count() == 0
        })
        .expect("At least one fake V5 transaction with no inputs and no outputs");

    // Insert fake Orchard shielded data to the transaction, which has at least one action
    insert_fake_orchard_shielded_data(&mut transaction);

    // If a transaction has at least one Orchard shielded action, it should be considered to have
    // inputs and/or outputs
    assert!(check::has_inputs_and_outputs(&transaction).is_ok());
}

#[test]
fn v5_transaction_with_no_inputs_fails_validation() {
    let transaction = fake_v5_transactions_for_network(Network::Mainnet)
        .into_iter()
        .rev()
        .find(|transaction| {
            transaction.inputs.is_empty()
                && sapling_spend_count(transaction) == 0
                && transaction.orchard_action_count() == 0
                && transaction.joinsplit_count() == 0
                && (!transaction.outputs.is_empty() || transaction.sapling_outputs() > 0)
        })
        .expect("At least one fake v5 transaction with no inputs in the test vectors");

    assert_eq!(
        check::has_inputs_and_outputs(&transaction),
        Err(TransactionError::NoInputs)
    );
}

#[test]
fn v5_transaction_with_no_outputs_fails_validation() {
    let transaction = fake_v5_transactions_for_network(Network::Mainnet)
        .into_iter()
        .rev()
        .find(|transaction| {
            transaction.outputs.is_empty()
                && transaction.sapling_outputs() == 0
                && transaction.orchard_action_count() == 0
                && transaction.joinsplit_count() == 0
                && (!transaction.inputs.is_empty() || sapling_spend_count(transaction) > 0)
        })
        .expect("At least one fake v5 transaction with no outputs in the test vectors");

    assert_eq!(
        check::has_inputs_and_outputs(&transaction),
        Err(TransactionError::NoOutputs)
    );
}

#[test]
fn v5_coinbase_transaction_without_enable_spends_flag_passes_validation() {
    let mut transaction = fake_v5_transactions_for_network(Network::Mainnet)
        .into_iter()
        .rev()
        .find(|transaction| transaction.is_coinbase())
        .expect("At least one fake V5 coinbase transaction in the test vectors");

    insert_fake_orchard_shielded_data(&mut transaction);

    assert!(check::coinbase_tx_no_prevout_joinsplit_spend(&transaction).is_ok(),);
}

#[test]
fn v5_coinbase_transaction_with_enable_spends_flag_fails_validation() {
    let mut transaction = fake_v5_transactions_for_network(Network::Mainnet)
        .into_iter()
        .rev()
        .find(|transaction| transaction.is_coinbase())
        .expect("At least one fake V5 coinbase transaction in the test vectors");

    let shielded_data = insert_fake_orchard_shielded_data(&mut transaction);

    shielded_data.flags = orchard::Flags { enable_spends: true, enable_outputs: false };

    assert_eq!(
        check::coinbase_tx_no_prevout_joinsplit_spend(&transaction),
        Err(TransactionError::CoinbaseHasEnableSpendsOrchard)
    );
}

#[test]
fn coinbase_transaction_must_not_spend() {
    let mut with_prevout = coinbase(5);
    with_prevout.inputs = vec![prev_out(1, 0)];
    // One input that is no coinbase input: the transaction is no coinbase transaction.
    assert_eq!(check::coinbase_tx_no_prevout_joinsplit_spend(&with_prevout), Ok(()));

    let mut with_joinsplit = coinbase(5);
    with_joinsplit.joinsplits = vec![sprout::JoinSplit {
        first_nullifier: sprout::Nullifier(0, 1),
        second_nullifier: sprout::Nullifier(0, 2),
    }];
    assert_eq!(
        check::coinbase_tx_no_prevout_joinsplit_spend(&with_joinsplit),
        Err(TransactionError::CoinbaseHasJoinSplit)
    );

    let mut with_spend = coinbase(5);
    with_spend.sapling_shielded_data = Some(sapling::ShieldedData {
        spends: vec![sapling::Spend { nullifier: sapling::Nullifier(0, 3) }],
        output_count: 0,
    });
    assert_eq!(
        check::coinbase_tx_no_prevout_joinsplit_spend(&with_spend),
        Err(TransactionError::CoinbaseHasSpend)
    );
}

#[test]
fn spends_are_collected_in_order() {
    let transaction = Transaction {
        version: 4,
        inputs: vec![prev_out(1, 0), prev_out(2, 7)],
        outputs: vec![],
        joinsplits: vec![sprout::JoinSplit {
            first_nullifier: sprout::Nullifier(0, 1),
            second_nullifier: sprout::Nullifier(0, 2),
        }],
        sapling_shielded_data: Some(sapling::ShieldedData {
            spends: vec![sapling::Spend { nullifier: sapling::Nullifier(4, 4) }],
            output_count: 0,
        }),
        orchard_shielded_data: None,
    };
    assert_eq!(
        transaction.spent_outpoints(),
        vec![
            transparent::OutPoint { hash: transaction::Hash(0, 1), index: 0 },
            transparent::OutPoint { hash: transaction::Hash(0, 2), index: 7 },
        ]
    );
    assert_eq!(transaction.sprout_nullifiers(), vec![sprout::Nullifier(0, 1), sprout::Nullifier(0, 2)]);
    assert_eq!(transaction.sapling_nullifiers(), vec![sapling::Nullifier(4, 4)]);
    assert_eq!(transaction.orchard_nullifiers(), vec![]);
    assert!(transaction.contains_prevout_input());
    assert!(!transaction.is_coinbase());
}
