use solana_message::v0;
use solana_pqc::message::{
    CompiledInstruction, LegacyMessage, MessageAddressTableLookup, MessageHeader, SanitizeError,
    TransactionConfig, V0Message, V1Message, VersionedMessage,
};
use solana_pqc::sanitize::sanitize_message;
use solana_pqc::transaction::combined_verdict;
use solana_pqc::{
    FalconSigner, Pubkey, SanitizedVersionedTransaction, Signature, VersionedTransaction,
};

fn compiled() -> V0Message {
    let message = v0::Message::try_compile(
        &solana_pubkey::Pubkey::new_unique(),
        &[],
        &[],
        solana_hash::Hash::default(),
    )
    .unwrap();
    assert!(message.instructions.is_empty());
    assert!(message.address_table_lookups.is_empty());
    V0Message {
        header: MessageHeader {
            num_required_signatures: message.header.num_required_signatures,
            num_readonly_signed_accounts: message.header.num_readonly_signed_accounts,
            num_readonly_unsigned_accounts: message.header.num_readonly_unsigned_accounts,
        },
        account_keys: message
            .account_keys
            .iter()
            .map(|key| Pubkey::new_from_array(key.to_bytes()))
            .collect(),
        recent_blockhash: message.recent_blockhash.to_bytes(),
        instructions: vec![],
        address_table_lookups: vec![],
    }
}

#[test]
fn test_try_new_with_invalid_signatures() {
    let tx = VersionedTransaction {
        signatures: vec![],
        message: VersionedMessage::V0(compiled()),
        falcon_signer: None,
    };

    assert_eq!(
        SanitizedVersionedTransaction::try_new(tx),
        Err(SanitizeError::IndexOutOfBounds)
    );
}

#[test]
fn test_try_new() {
    let mut message = compiled();
    message.header.num_readonly_signed_accounts += 1;

    let tx = VersionedTransaction {
        signatures: vec![Signature::default()],
        message: VersionedMessage::V0(message),
        falcon_signer: None,
    };

    assert_eq!(
        SanitizedVersionedTransaction::try_new(tx),
        Err(SanitizeError::InvalidValue)
    );
}

fn header(required: u8) -> MessageHeader {
    MessageHeader {
        num_required_signatures: required,
        num_readonly_signed_accounts: 0,
        num_readonly_unsigned_accounts: 1,
    }
}

fn keys(count: u8) -> Vec<Pubkey> {
    (0..count).map(|i| Pubkey::new_from_array([i; 32])).collect()
}

fn instruction(program_id_index: u8, account: u8) -> CompiledInstruction {
    CompiledInstruction { program_id_index, accounts: vec![0, account], data: vec![1, 2] }
}

fn legacy(program_id_index: u8, account: u8) -> VersionedMessage {
    VersionedMessage::Legacy(LegacyMessage {
        header: header(1),
        account_keys: keys(3),
        recent_blockhash: [4; 32],
        instructions: vec![instruction(program_id_index, account)],
    })
}

fn versioned_0(program_id_index: u8, account: u8) -> V0Message {
    V0Message {
        header: header(1),
        account_keys: keys(3),
        recent_blockhash: [4; 32],
        instructions: vec![instruction(program_id_index, account)],
        address_table_lookups: vec![MessageAddressTableLookup {
            account_key: Pubkey::new_from_array([9; 32]),
            writable_indexes: vec![7],
            readonly_indexes: vec![8, 9],
        }],
    }
}

fn versioned_1(program_id_index: u8, account: u8) -> V1Message {
    V1Message {
        header: header(1),
        config: TransactionConfig {
            priority_fee: Some(1),
            compute_unit_limit: None,
            loaded_accounts_data_size_limit: Some(2),
            heap_size: None,
        },
        lifetime_specifier: [4; 32],
        account_keys: keys(3),
        instructions: vec![instruction(program_id_index, account)],
    }
}

#[test]
fn messages_are_sanitized() {
    assert_eq!(sanitize_message(&legacy(2, 2)), Ok(()));
    assert_eq!(sanitize_message(&legacy(3, 2)), Err(SanitizeError::IndexOutOfBounds));
    assert_eq!(sanitize_message(&legacy(0, 2)), Err(SanitizeError::IndexOutOfBounds));
    assert_eq!(sanitize_message(&legacy(2, 3)), Err(SanitizeError::IndexOutOfBounds));

    // Account indexes reach into the looked-up accounts, program indexes do not.
    assert_eq!(sanitize_message(&VersionedMessage::V0(versioned_0(2, 5))), Ok(()));
    assert_eq!(
        sanitize_message(&VersionedMessage::V0(versioned_0(2, 6))),
        Err(SanitizeError::IndexOutOfBounds)
    );
    assert_eq!(
        sanitize_message(&VersionedMessage::V0(versioned_0(3, 5))),
        Err(SanitizeError::IndexOutOfBounds)
    );
    let mut empty_lookup = versioned_0(2, 2);
    empty_lookup.address_table_lookups[0].writable_indexes = vec![];
    empty_lookup.address_table_lookups[0].readonly_indexes = vec![];
    assert_eq!(
        sanitize_message(&VersionedMessage::V0(empty_lookup)),
        Err(SanitizeError::InvalidValue)
    );

    assert_eq!(sanitize_message(&VersionedMessage::V1(versioned_1(2, 2))), Ok(()));
    assert_eq!(
        sanitize_message(&VersionedMessage::V1(versioned_1(2, 3))),
        Err(SanitizeError::IndexOutOfBounds)
    );
    let mut long = versioned_1(2, 2);
    long.instructions[0].data = vec![0; 65536];
    assert_eq!(sanitize_message(&VersionedMessage::V1(long)), Err(SanitizeError::InvalidValue));
}

fn with_header(message: VersionedMessage, signers: (u8, u8), unsigned: u8) -> VersionedMessage {
    let header = MessageHeader {
        num_required_signatures: signers.0,
        num_readonly_signed_accounts: signers.1,
        num_readonly_unsigned_accounts: unsigned,
    };
    match message {
        VersionedMessage::Legacy(message) => {
            VersionedMessage::Legacy(LegacyMessage { header, ..message })
        }
        VersionedMessage::V0(message) => VersionedMessage::V0(V0Message { header, ..message }),
        VersionedMessage::V1(message) => VersionedMessage::V1(V1Message { header, ..message }),
    }
}

#[test]
fn header_must_be_sound() {
    let out = Err(SanitizeError::IndexOutOfBounds);
    let invalid = Err(SanitizeError::InvalidValue);
    for (message, no_fee_payer) in [
        (legacy(2, 2), out),
        (VersionedMessage::V0(versioned_0(2, 2)), invalid),
        (VersionedMessage::V1(versioned_1(2, 2)), invalid),
    ] {
        let verdict = |signers, unsigned| {
            sanitize_message(&with_header(message.clone(), signers, unsigned))
        };
        assert_eq!(verdict((2, 1), 1), Ok(()));
        assert_eq!(verdict((1, 0), 3), out);
        assert_eq!(verdict((4, 4), 0), out);
        assert_eq!(verdict((0, 0), 1), no_fee_payer);
        assert_eq!(verdict((2, 2), 1), no_fee_payer);
    }
}

#[test]
fn v1_counts_come_before_the_fee_payer() {
    let mut message = versioned_1(2, 2);
    message.header.num_required_signatures = 0;
    message.instructions = vec![instruction(2, 2); 255];
    assert_eq!(
        sanitize_message(&VersionedMessage::V1(message.clone())),
        Err(SanitizeError::InvalidValue)
    );
    message.instructions.push(instruction(2, 2));
    assert_eq!(
        sanitize_message(&VersionedMessage::V1(message.clone())),
        Err(SanitizeError::IndexOutOfBounds)
    );
    message.instructions.pop();
    message.account_keys = keys(255);
    assert_eq!(
        sanitize_message(&VersionedMessage::V1(message.clone())),
        Err(SanitizeError::InvalidValue)
    );
    message.account_keys.push(Pubkey::new_from_array([255; 32]));
    assert_eq!(
        sanitize_message(&VersionedMessage::V1(message)),
        Err(SanitizeError::IndexOutOfBounds)
    );
}

#[test]
fn v0_lookups_are_judged_before_indexes() {
    let verdict = |message: &V0Message| sanitize_message(&VersionedMessage::V0(message.clone()));
    let mut message = versioned_0(3, 99);
    assert_eq!(verdict(&message), Err(SanitizeError::IndexOutOfBounds));
    message.address_table_lookups.push(MessageAddressTableLookup {
        account_key: Pubkey::new_from_array([8; 32]),
        writable_indexes: vec![],
        readonly_indexes: vec![],
    });
    assert_eq!(verdict(&message), Err(SanitizeError::InvalidValue));

    // 3 keys and 3 looked-up accounts, then 250 more, then one too many.
    let mut message = versioned_0(2, 255);
    assert_eq!(verdict(&message), Err(SanitizeError::IndexOutOfBounds));
    message.address_table_lookups[0].writable_indexes = vec![7; 251];
    assert_eq!(verdict(&message), Ok(()));
    message.address_table_lookups[0].writable_indexes = vec![7; 252];
    assert_eq!(verdict(&message), Err(SanitizeError::IndexOutOfBounds));

    // The fee payer is no program.
    assert_eq!(verdict(&versioned_0(0, 2)), Err(SanitizeError::IndexOutOfBounds));
    assert_eq!(verdict(&versioned_0(1, 2)), Ok(()));
}

#[test]
fn the_first_v1_instruction_with_a_fault_decides() {
    let verdict = |instructions: Vec<CompiledInstruction>| {
        let mut message = versioned_1(2, 2);
        message.instructions = instructions;
        sanitize_message(&VersionedMessage::V1(message))
    };
    let out = Err(SanitizeError::IndexOutOfBounds);
    let invalid = Err(SanitizeError::InvalidValue);
    let good = instruction(1, 2);
    let bad_index = instruction(1, 3);
    let long_data = CompiledInstruction { data: vec![0; 65536], ..instruction(1, 2) };
    let many_accounts = CompiledInstruction { accounts: vec![0; 256], ..instruction(1, 2) };
    assert_eq!(verdict(vec![]), Ok(()));
    assert_eq!(verdict(vec![good.clone(), good.clone()]), Ok(()));
    assert_eq!(verdict(vec![good.clone(), bad_index.clone(), long_data.clone()]), out);
    assert_eq!(verdict(vec![good.clone(), long_data.clone(), bad_index.clone()]), invalid);
    assert_eq!(verdict(vec![good, many_accounts, bad_index]), invalid);

    // Within one instruction: the program, the lengths, the accounts.
    let full = CompiledInstruction {
        program_id_index: 2,
        accounts: vec![2; 255],
        data: vec![0; 65535],
    };
    assert_eq!(verdict(vec![full]), Ok(()));
    assert_eq!(
        verdict(vec![CompiledInstruction { accounts: vec![3; 256], ..instruction(1, 2) }]),
        invalid
    );
    assert_eq!(
        verdict(vec![CompiledInstruction { data: vec![0; 65536], ..instruction(1, 3) }]),
        invalid
    );
    assert_eq!(
        verdict(vec![CompiledInstruction { data: vec![0; 65536], ..instruction(0, 2) }]),
        out
    );
    assert_eq!(
        verdict(vec![CompiledInstruction { accounts: vec![0; 256], ..instruction(3, 2) }]),
        out
    );
}

fn transaction(signatures: usize, required: u8) -> VersionedTransaction {
    let mut message = versioned_0(2, 2);
    message.header = header(required);
    VersionedTransaction {
        signatures: vec![Signature::from([6; 64]); signatures],
        message: VersionedMessage::V0(message),
        falcon_signer: Some(FalconSigner { pubkey: vec![1], signature: vec![2, 3] }),
    }
}

#[test]
fn signatures_are_counted() {
    assert_eq!(transaction(2, 2).sanitize_signatures(), Ok(()));
    assert_eq!(transaction(1, 2).sanitize_signatures(), Err(SanitizeError::IndexOutOfBounds));
    assert_eq!(transaction(3, 2).sanitize_signatures(), Err(SanitizeError::InvalidValue));
    assert_eq!(transaction(4, 4).sanitize_signatures(), Err(SanitizeError::IndexOutOfBounds));
}

#[test]
fn signatures_are_judged_first() {
    let out = Err(SanitizeError::IndexOutOfBounds);
    let invalid = Err(SanitizeError::InvalidValue);
    let value = Err(SanitizeError::ValueOutOfBounds);
    assert_eq!(combined_verdict(out, invalid), out);
    assert_eq!(combined_verdict(value, Ok(())), value);
    assert_eq!(combined_verdict(Ok(()), invalid), invalid);
    assert_eq!(combined_verdict(Ok(()), Ok(())), Ok(()));

    let mut message = compiled();
    message.header.num_readonly_signed_accounts += 1;
    let tx = VersionedTransaction {
        signatures: vec![],
        message: VersionedMessage::V0(message),
        falcon_signer: None,
    };
    assert_eq!(SanitizedVersionedTransaction::try_from(tx), out.map(|()| unreachable!()));
}

#[test]
fn fields_survive_sanitization() {
    let sanitized = SanitizedVersionedTransaction::try_new(transaction(2, 2)).unwrap();
    let original = transaction(2, 2);
    assert_eq!(sanitized.get_message().message(), &original.message);
    assert_eq!(sanitized.clone(), sanitized);
    let (signatures, message, falcon_signer) = sanitized.destruct();
    assert_eq!(signatures, original.signatures);
    assert_eq!(message.message(), &original.message);
    assert_eq!(falcon_signer, original.falcon_signer);

    let again = VersionedTransaction {
        signatures,
        message: message.message().clone(),
        falcon_signer,
    };
    assert!(SanitizedVersionedTransaction::try_from(again).is_ok());
}

#[test]
fn legacy_and_v1_transactions_are_sanitized() {
    for message in [legacy(2, 2), VersionedMessage::V1(versioned_1(2, 2))] {
        let tx = VersionedTransaction {
            signatures: vec![Signature::default()],
            message: message.clone(),
            falcon_signer: None,
        };
        let sanitized = SanitizedVersionedTransaction::try_new(tx).unwrap();
        assert_eq!(sanitized.get_message().message(), &message);
        assert_eq!(message.header().num_required_signatures, 1);
        assert_eq!(message.static_account_keys().len(), 3);
    }
}
