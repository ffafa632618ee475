//! Sanitization of messages.

use crate::keys::Pubkey;
use crate::message::{has_no_fee_payer, has_too_few_keys, is_sound_header};
use crate::message::{instruction_contents, key_bytes, lookup_contents};
use crate::message::{law_list_contents, num_looked_up};
use crate::message::{CompiledInstruction, MessageAddressTableLookup, MessageHeader, MessageView};
use crate::message::{LegacyMessage, SanitizeError, TransactionConfig, V0Message, V1Message};
use crate::message::VersionedMessage;
use solana_message::compiled_instruction::CompiledInstruction as Instruction;
use solana_message::v0::MessageAddressTableLookup as Lookup;
use solana_message::{legacy, v0, v1};
use solana_message::{MessageHeader as Header, SanitizedVersionedMessage as Sanitized};
use solana_message::VersionedMessage as Message;
use solana_sanitize::SanitizeError as Cause;
use vstd::prelude::*;

verus! {

/// The program of the instruction is one of the keys that the message itself
/// holds, and not the fee payer.
pub open spec fn names_program(
    instruction: (u8, Seq<u8>, Seq<u8>),
    num_static_keys: nat,
) -> bool {
    0 < instruction.0 < num_static_keys
}

/// The account indexes of the instruction are in range.
pub open spec fn names_accounts(instruction: (u8, Seq<u8>, Seq<u8>), num_accounts: nat) -> bool {
    forall|i: int| 0 <= i < instruction.1.len() ==> (#[trigger] instruction.1[i]) < num_accounts
}

/// The indexes of every instruction are in range.
pub open spec fn has_valid_indexes(message: MessageView) -> bool {
    forall|i: int|
        0 <= i < message.instructions().len() ==> {
            &&& names_program(#[trigger] message.instructions()[i], message.num_static_keys())
            &&& names_accounts(message.instructions()[i], message.num_accounts())
        }
}

/// Some lookup loads no account.
pub open spec fn has_empty_lookup(lookups: Seq<(Seq<u8>, Seq<u8>, Seq<u8>)>) -> bool {
    exists|i: int|
        0 <= i < lookups.len() && (#[trigger] lookups[i]).1.len() == 0 && lookups[i].2.len() == 0
}

/// The lengths in a V1 instruction fit one byte for its accounts and two for
/// its data.
pub open spec fn fits_v1(instruction: (u8, Seq<u8>, Seq<u8>)) -> bool {
    instruction.1.len() <= 255 && instruction.2.len() <= 65535
}

/// What is wrong with a V1 instruction.
pub open spec fn v1_fault(
    instruction: (u8, Seq<u8>, Seq<u8>),
    num_keys: nat,
) -> Option<SanitizeError> {
    if !names_program(instruction, num_keys) {
        Some(SanitizeError::IndexOutOfBounds)
    } else if !fits_v1(instruction) {
        Some(SanitizeError::InvalidValue)
    } else if !names_accounts(instruction, num_keys) {
        Some(SanitizeError::IndexOutOfBounds)
    } else {
        None
    }
}

/// What is wrong with the first V1 instruction with a fault.
pub open spec fn first_v1_fault(
    instructions: Seq<(u8, Seq<u8>, Seq<u8>)>,
    num_keys: nat,
) -> Option<SanitizeError>
    decreases instructions.len(),
{
    if instructions.len() == 0 {
        None
    } else if first_v1_fault(instructions.drop_last(), num_keys) is Some {
        first_v1_fault(instructions.drop_last(), num_keys)
    } else {
        v1_fault(instructions.last(), num_keys)
    }
}

/// What message sanitization finds first.
pub open spec fn message_fault(message: MessageView) -> Option<SanitizeError> {
    match message {
        MessageView::Legacy { header, account_keys, .. } => if is_sound_header(
            header,
            account_keys.len(),
        ) && has_valid_indexes(message) {
            None
        } else {
            Some(SanitizeError::IndexOutOfBounds)
        },
        MessageView::V0 { header, account_keys, address_table_lookups, .. } => {
            if has_too_few_keys(header, account_keys.len()) {
                Some(SanitizeError::IndexOutOfBounds)
            } else if has_no_fee_payer(header) || has_empty_lookup(address_table_lookups) {
                Some(SanitizeError::InvalidValue)
            } else if message.num_accounts() > 256 || !has_valid_indexes(message) {
                Some(SanitizeError::IndexOutOfBounds)
            } else {
                None
            }
        },
        MessageView::V1 { header, account_keys, instructions, .. } => {
            if instructions.len() > 255 || account_keys.len() > 255 || has_too_few_keys(
                header,
                account_keys.len(),
            ) {
                Some(SanitizeError::IndexOutOfBounds)
            } else if has_no_fee_payer(header) {
                Some(SanitizeError::InvalidValue)
            } else {
                first_v1_fault(instructions, account_keys.len())
            }
        },
    }
}

/// The verdict of message sanitization.
pub open spec fn message_verdict(message: MessageView) -> Result<(), SanitizeError> {
    match message_fault(message) {
        Some(fault) => Err(fault),
        None => Ok(()),
    }
}

/// The messages that pass sanitization.
pub open spec fn is_well_formed(message: MessageView) -> bool {
    &&& is_sound_header(message.header(), message.num_static_keys())
    &&& has_valid_indexes(message)
    &&& match message {
        MessageView::Legacy { .. } => true,
        MessageView::V0 { address_table_lookups, .. } => {
            &&& !has_empty_lookup(address_table_lookups)
            &&& message.num_accounts() <= 256
        },
        MessageView::V1 { account_keys, instructions, .. } => {
            &&& account_keys.len() <= 255
            &&& instructions.len() <= 255
            &&& forall|i: int| 0 <= i < instructions.len() ==> fits_v1(#[trigger] instructions[i])
        },
    }
}

/// No V1 instruction has a fault exactly if each of them has none.
proof fn lemma_first_v1_fault(instructions: Seq<(u8, Seq<u8>, Seq<u8>)>, num_keys: nat)
    ensures
        first_v1_fault(instructions, num_keys) is None <==> (forall|i: int|
            0 <= i < instructions.len() ==> v1_fault(#[trigger] instructions[i], num_keys) is None),
    decreases instructions.len(),
{
    if instructions.len() > 0 {
        let rest = instructions.drop_last();
        lemma_first_v1_fault(rest, num_keys);
        assert(forall|i: int| 0 <= i < rest.len() ==> rest[i] == instructions[i]);
        assert(instructions.last() == instructions[instructions.len() - 1]);
        if first_v1_fault(rest, num_keys) is Some {
            let i = choose|i: int|
                0 <= i < rest.len() && v1_fault(#[trigger] rest[i], num_keys) is Some;
            assert(v1_fault(instructions[i], num_keys) is Some);
        }
    }
}

/// A message passes sanitization exactly if it is well-formed: its header is
/// sound, and the indexes of its instructions are in range.
pub proof fn law_sanitized_is_well_formed(message: MessageView)
    ensures
        message_verdict(message) is Ok <==> is_well_formed(message),
{
    if let MessageView::V1 { account_keys, instructions, .. } = message {
        lemma_first_v1_fault(instructions, account_keys.len());
        assert(message.instructions() == instructions);
        if is_well_formed(message) {
            assert forall|i: int| 0 <= i < instructions.len() implies v1_fault(
                #[trigger] instructions[i],
                account_keys.len(),
            ) is None by {
                assert(names_program(message.instructions()[i], account_keys.len()));
            }
        }
    }
}

/// The first V1 instruction with a fault decides which error is reported.
pub proof fn law_first_v1_fault_is_reported(
    instructions: Seq<(u8, Seq<u8>, Seq<u8>)>,
    num_keys: nat,
    first: int,
)
    requires
        0 <= first < instructions.len(),
        v1_fault(instructions[first], num_keys) is Some,
        forall|i: int| 0 <= i < first ==> v1_fault(#[trigger] instructions[i], num_keys) is None,
    ensures
        first_v1_fault(instructions, num_keys) == v1_fault(instructions[first], num_keys),
    decreases instructions.len(),
{
    let rest = instructions.drop_last();
    assert(forall|i: int| 0 <= i < rest.len() ==> rest[i] == instructions[i]);
    if first < rest.len() {
        law_first_v1_fault_is_reported(rest, num_keys, first);
    } else {
        lemma_first_v1_fault(rest, num_keys);
    }
}

/// A message whose header is not sound is refused, whatever its instructions
/// say: for too few keys, or else for want of a fee payer.
pub proof fn law_unsound_header_is_refused(message: MessageView)
    requires
        !is_sound_header(message.header(), message.num_static_keys()),
    ensures
        message_verdict(message) is Err,
        has_too_few_keys(message.header(), message.num_static_keys()) ==> message_verdict(message)
            == Err::<(), SanitizeError>(SanitizeError::IndexOutOfBounds),
        !has_too_few_keys(message.header(), message.num_static_keys()) ==> match message {
            MessageView::Legacy { .. } => message_verdict(message)
                == Err::<(), SanitizeError>(SanitizeError::IndexOutOfBounds),
            MessageView::V0 { .. } => message_verdict(message)
                == Err::<(), SanitizeError>(SanitizeError::InvalidValue),
            MessageView::V1 { account_keys, instructions, .. } => (account_keys.len() <= 255
                && instructions.len() <= 255) ==> message_verdict(message)
                == Err::<(), SanitizeError>(SanitizeError::InvalidValue),
        },
{
}

/// Calls `solana_message::SanitizedVersionedMessage::try_from` on a legacy
/// message with the given header and contents. Each fault, in the header or in
/// an index of an instruction, gives the same error.
#[verifier::external_body]
fn sanitize_legacy(
    num_required_signatures: u8,
    num_readonly_signed_accounts: u8,
    num_readonly_unsigned_accounts: u8,
    account_keys: Vec<Pubkey>,
    recent_blockhash: [u8; 32],
    instructions: Vec<CompiledInstruction>,
) -> (verdict: Result<(), SanitizeError>)
    ensures
        verdict == message_verdict(
            (MessageView::Legacy {
                header: MessageHeader {
                    num_required_signatures,
                    num_readonly_signed_accounts,
                    num_readonly_unsigned_accounts,
                },
                account_keys: key_bytes(account_keys@),
                recent_blockhash: recent_blockhash@,
                instructions: instruction_contents(instructions@),
            }),
        ),
{
    match Sanitized::try_from(Message::Legacy(legacy::Message {
        header: Header { num_required_signatures, num_readonly_signed_accounts, num_readonly_unsigned_accounts },
        account_keys: account_keys.into_iter().map(|key| key.0.into()).collect(),
        recent_blockhash: recent_blockhash.into(),
        instructions: instructions.into_iter().map(|i| Instruction::new_from_raw_parts(i.program_id_index, i.data, i.accounts)).collect(),
    })) {
        Ok(_) => Ok(()),
        Err(Cause::IndexOutOfBounds) => Err(SanitizeError::IndexOutOfBounds),
        Err(Cause::ValueOutOfBounds) => Err(SanitizeError::ValueOutOfBounds),
        Err(Cause::InvalidValue) => Err(SanitizeError::InvalidValue),
    }
}

/// Calls `solana_message::SanitizedVersionedMessage::try_from` on a V0 message
/// with the given header and contents. It looks for too few keys, then for a
/// fee payer, then for lookups that load nothing, and at last at the number of
/// accounts and the indexes of the instructions.
#[verifier::external_body]
fn sanitize_v0(
    num_required_signatures: u8,
    num_readonly_signed_accounts: u8,
    num_readonly_unsigned_accounts: u8,
    account_keys: Vec<Pubkey>,
    recent_blockhash: [u8; 32],
    instructions: Vec<CompiledInstruction>,
    address_table_lookups: Vec<MessageAddressTableLookup>,
) -> (verdict: Result<(), SanitizeError>)
    ensures
        verdict == message_verdict(
            (MessageView::V0 {
                header: MessageHeader {
                    num_required_signatures,
                    num_readonly_signed_accounts,
                    num_readonly_unsigned_accounts,
                },
                account_keys: key_bytes(account_keys@),
                recent_blockhash: recent_blockhash@,
                instructions: instruction_contents(instructions@),
                address_table_lookups: lookup_contents(address_table_lookups@),
            }),
        ),
{
    match Sanitized::try_from(Message::V0(v0::Message {
        header: Header { num_required_signatures, num_readonly_signed_accounts, num_readonly_unsigned_accounts },
        account_keys: account_keys.into_iter().map(|key| key.0.into()).collect(),
        recent_blockhash: recent_blockhash.into(),
        instructions: instructions.into_iter().map(|i| Instruction::new_from_raw_parts(i.program_id_index, i.data, i.accounts)).collect(),
        address_table_lookups: address_table_lookups.into_iter().map(|l| Lookup { account_key: l.account_key.0.into(), writable_indexes: l.writable_indexes, readonly_indexes: l.readonly_indexes }).collect(),
    })) {
        Ok(_) => Ok(()),
        Err(Cause::IndexOutOfBounds) => Err(SanitizeError::IndexOutOfBounds),
        Err(Cause::ValueOutOfBounds) => Err(SanitizeError::ValueOutOfBounds),
        Err(Cause::InvalidValue) => Err(SanitizeError::InvalidValue),
    }
}

/// Calls `solana_message::SanitizedVersionedMessage::try_from` on a V1 message
/// with the given header and contents. It looks at the numbers of instructions
/// and keys, then for a fee payer, and at last at one instruction after the
/// other: its program, its lengths, its accounts.
#[verifier::external_body]
fn sanitize_v1(
    num_required_signatures: u8,
    num_readonly_signed_accounts: u8,
    num_readonly_unsigned_accounts: u8,
    config: TransactionConfig,
    lifetime_specifier: [u8; 32],
    account_keys: Vec<Pubkey>,
    instructions: Vec<CompiledInstruction>,
) -> (verdict: Result<(), SanitizeError>)
    ensures
        verdict == message_verdict(
            (MessageView::V1 {
                header: MessageHeader {
                    num_required_signatures,
                    num_readonly_signed_accounts,
                    num_readonly_unsigned_accounts,
                },
                config,
                lifetime_specifier: lifetime_specifier@,
                account_keys: key_bytes(account_keys@),
                instructions: instruction_contents(instructions@),
            }),
        ),
{
    let TransactionConfig { priority_fee, compute_unit_limit, loaded_accounts_data_size_limit, heap_size } = config;
    match Sanitized::try_from(Message::V1(v1::Message {
        header: Header { num_required_signatures, num_readonly_signed_accounts, num_readonly_unsigned_accounts },
        config: v1::TransactionConfig { priority_fee, compute_unit_limit, loaded_accounts_data_size_limit, heap_size },
        lifetime_specifier: lifetime_specifier.into(),
        account_keys: account_keys.into_iter().map(|key| key.0.into()).collect(),
        instructions: instructions.into_iter().map(|i| Instruction::new_from_raw_parts(i.program_id_index, i.data, i.accounts)).collect(),
    })) {
        Ok(_) => Ok(()),
        Err(Cause::IndexOutOfBounds) => Err(SanitizeError::IndexOutOfBounds),
        Err(Cause::ValueOutOfBounds) => Err(SanitizeError::ValueOutOfBounds),
        Err(Cause::InvalidValue) => Err(SanitizeError::InvalidValue),
    }
}

/// Sanitize message fields and compiled instruction indexes.
pub fn sanitize_message(message: &VersionedMessage) -> (verdict: Result<(), SanitizeError>)
    ensures
        verdict == message_verdict(message@),
        verdict is Ok <==> is_well_formed(message@),
{
    proof {
        law_sanitized_is_well_formed(message@);
    }
    match message.clone() {
        VersionedMessage::Legacy(copy) => sanitize_legacy(
            copy.header.num_required_signatures,
            copy.header.num_readonly_signed_accounts,
            copy.header.num_readonly_unsigned_accounts,
            copy.account_keys,
            copy.recent_blockhash,
            copy.instructions,
        ),
        VersionedMessage::V0(copy) => sanitize_v0(
            copy.header.num_required_signatures,
            copy.header.num_readonly_signed_accounts,
            copy.header.num_readonly_unsigned_accounts,
            copy.account_keys,
            copy.recent_blockhash,
            copy.instructions,
            copy.address_table_lookups,
        ),
        VersionedMessage::V1(copy) => sanitize_v1(
            copy.header.num_required_signatures,
            copy.header.num_readonly_signed_accounts,
            copy.header.num_readonly_unsigned_accounts,
            copy.config,
            copy.lifetime_specifier,
            copy.account_keys,
            copy.instructions,
        ),
    }
}

/// A legacy message passes exactly if its keys suffice for its header, a signer
/// is writable, each program is one of the keys but not the first, and each
/// account is one of the keys. Otherwise an index is out of bounds.
pub proof fn law_legacy_rules(message: LegacyMessage)
    ensures
        message_verdict(message@) is Ok <==> {
            &&& message.header.num_required_signatures
                + message.header.num_readonly_unsigned_accounts <= message.account_keys@.len()
            &&& message.header.num_readonly_signed_accounts < message.header.num_required_signatures
            &&& forall|i: int|
                #![trigger message.instructions@[i]]
                0 <= i < message.instructions@.len() ==> {
                    &&& 0 < message.instructions@[i].program_id_index < message.account_keys@.len()
                    &&& forall|j: int|
                        0 <= j < message.instructions@[i].accounts@.len()
                            ==> (#[trigger] message.instructions@[i].accounts@[j]) < message.account_keys@.len()
                }
        },
        message_verdict(message@) is Err ==> message_verdict(message@) == Err::<(), SanitizeError>(SanitizeError::IndexOutOfBounds),
{
    law_list_contents(message.account_keys@, message.instructions@, Seq::empty());
    lemma_indexes_of_fields(message@, message.instructions@);
}

/// A V0 message passes exactly if its keys suffice for its header, a signer is
/// writable, each lookup loads an account, there are at most 256 accounts, each
/// program is one of the keys but not the first, and each account is one of
/// those that there are.
pub proof fn law_v0_rules(message: V0Message)
    ensures
        message_verdict(message@) is Ok <==> {
            &&& message.header.num_required_signatures
                + message.header.num_readonly_unsigned_accounts <= message.account_keys@.len()
            &&& message.header.num_readonly_signed_accounts < message.header.num_required_signatures
            &&& forall|i: int|
                #![trigger message.address_table_lookups@[i]]
                0 <= i < message.address_table_lookups@.len() ==> (
                message.address_table_lookups@[i].writable_indexes@.len() > 0
                    || message.address_table_lookups@[i].readonly_indexes@.len() > 0)
            &&& message.account_keys@.len() + num_looked_up(
                lookup_contents(message.address_table_lookups@),
            ) <= 256
            &&& forall|i: int|
                #![trigger message.instructions@[i]]
                0 <= i < message.instructions@.len() ==> {
                    &&& 0 < message.instructions@[i].program_id_index < message.account_keys@.len()
                    &&& forall|j: int|
                        0 <= j < message.instructions@[i].accounts@.len()
                            ==> (#[trigger] message.instructions@[i].accounts@[j])
                            < message.account_keys@.len() + num_looked_up(
                            lookup_contents(message.address_table_lookups@),
                        )
                }
        },
        message_verdict(message@) is Err ==> message_verdict(message@) == if message.header.num_required_signatures
                + message.header.num_readonly_unsigned_accounts > message.account_keys@.len() {
            Err::<(), SanitizeError>(SanitizeError::IndexOutOfBounds)
        } else if message.header.num_readonly_signed_accounts
            >= message.header.num_required_signatures || (exists|i: int|
            #![trigger message.address_table_lookups@[i]]
            0 <= i < message.address_table_lookups@.len()
                && message.address_table_lookups@[i].writable_indexes@.len() == 0
                && message.address_table_lookups@[i].readonly_indexes@.len() == 0) {
            Err::<(), SanitizeError>(SanitizeError::InvalidValue)
        } else {
            Err::<(), SanitizeError>(SanitizeError::IndexOutOfBounds)
        },
{
    law_list_contents(
        message.account_keys@,
        message.instructions@,
        message.address_table_lookups@,
    );
    lemma_indexes_of_fields(message@, message.instructions@);
    lemma_lookups_of_fields(message.address_table_lookups@);
}

/// A V1 message passes exactly if it has at most 255 keys and 255 instructions,
/// its keys suffice for its header, a signer is writable, and in each
/// instruction the program is one of the keys but not the first, there are at
/// most 255 accounts and 65535 bytes of data, and each account is one of the
/// keys. Of the faults that are not in an instruction, want of a writable
/// signer counts as an invalid value, and the others as an index out of bounds.
pub proof fn law_v1_rules(message: V1Message)
    ensures
        message_verdict(message@) is Ok <==> {
            &&& message.account_keys@.len() <= 255
            &&& message.instructions@.len() <= 255
            &&& message.header.num_required_signatures
                + message.header.num_readonly_unsigned_accounts <= message.account_keys@.len()
            &&& message.header.num_readonly_signed_accounts < message.header.num_required_signatures
            &&& forall|i: int|
                #![trigger message.instructions@[i]]
                0 <= i < message.instructions@.len() ==> {
                    &&& 0 < message.instructions@[i].program_id_index < message.account_keys@.len()
                    &&& message.instructions@[i].accounts@.len() <= 255
                    &&& message.instructions@[i].data@.len() <= 65535
                    &&& forall|j: int|
                        0 <= j < message.instructions@[i].accounts@.len()
                            ==> (#[trigger] message.instructions@[i].accounts@[j]) < message.account_keys@.len()
                }
        },
        (message.account_keys@.len() > 255 || message.instructions@.len() > 255 || message.header.num_required_signatures
                + message.header.num_readonly_unsigned_accounts > message.account_keys@.len()) ==> message_verdict(message@)
            == Err::<(), SanitizeError>(SanitizeError::IndexOutOfBounds),
        (message.account_keys@.len() <= 255 && message.instructions@.len() <= 255 && message.header.num_required_signatures
                + message.header.num_readonly_unsigned_accounts <= message.account_keys@.len()
            && message.header.num_readonly_signed_accounts
            >= message.header.num_required_signatures) ==> message_verdict(message@) == Err::<(), SanitizeError>(SanitizeError::InvalidValue),
{
    law_list_contents(message.account_keys@, message.instructions@, Seq::empty());
    law_sanitized_is_well_formed(message@);
    lemma_indexes_of_fields(message@, message.instructions@);
    let instructions = instruction_contents(message.instructions@);
    assert forall|i: int|
        #![trigger message.instructions@[i]]
        #![trigger instructions[i]]
        0 <= i < instructions.len() implies fits_v1(instructions[i]) == (
    message.instructions@[i].accounts@.len() <= 255 && message.instructions@[i].data@.len()
        <= 65535) by {
        assert(instructions[i].1 == message.instructions@[i].accounts@);
    }
}

/// Where nothing else is wrong with a V1 message, the first instruction with a
/// fault decides: a program that is none of the keys or the first of them is
/// out of bounds; then too many accounts or too much data is an invalid value;
/// then an account that is none of the keys is out of bounds.
pub proof fn law_v1_instruction_rules(message: V1Message, first: int)
    requires
        message.account_keys@.len() <= 255,
        message.instructions@.len() <= 255,
        message.header.num_required_signatures
                + message.header.num_readonly_unsigned_accounts <= message.account_keys@.len(),
        message.header.num_readonly_signed_accounts < message.header.num_required_signatures,
        0 <= first < message.instructions@.len(),
        forall|i: int|
            #![trigger message.instructions@[i]]
            0 <= i < first ==> {
                &&& 0 < message.instructions@[i].program_id_index < message.account_keys@.len()
                &&& message.instructions@[i].accounts@.len() <= 255
                &&& message.instructions@[i].data@.len() <= 65535
                &&& forall|j: int|
                    0 <= j < message.instructions@[i].accounts@.len()
                        ==> (#[trigger] message.instructions@[i].accounts@[j]) < message.account_keys@.len()
            },
    ensures
        !(0 < message.instructions@[first].program_id_index < message.account_keys@.len()) ==> message_verdict(message@)
            == Err::<(), SanitizeError>(SanitizeError::IndexOutOfBounds),
        (0 < message.instructions@[first].program_id_index < message.account_keys@.len() && (
        message.instructions@[first].accounts@.len() > 255
            || message.instructions@[first].data@.len() > 65535)) ==> message_verdict(message@)
            == Err::<(), SanitizeError>(SanitizeError::InvalidValue),
        (0 < message.instructions@[first].program_id_index < message.account_keys@.len()
            && message.instructions@[first].accounts@.len() <= 255
            && message.instructions@[first].data@.len() <= 65535 && exists|j: int|
            0 <= j < message.instructions@[first].accounts@.len()
                && (#[trigger] message.instructions@[first].accounts@[j]) >= message.account_keys@.len())
            ==> message_verdict(message@) == Err::<(), SanitizeError>(SanitizeError::IndexOutOfBounds),
{
    law_list_contents(message.account_keys@, message.instructions@, Seq::empty());
    let instructions = instruction_contents(message.instructions@);
    let num_keys = message.account_keys@.len();
    assert forall|i: int| 0 <= i < first implies v1_fault(
        #[trigger] instructions[i],
        num_keys,
    ) is None by {
        assert(instructions[i].1 == message.instructions@[i].accounts@);
    }
    assert(instructions[first].1 == message.instructions@[first].accounts@);
    if v1_fault(instructions[first], num_keys) is Some {
        law_first_v1_fault_is_reported(instructions, num_keys, first);
    }
}

/// The indexes in the contents of a message are those in its instructions.
proof fn lemma_indexes_of_fields(message: MessageView, instructions: Seq<CompiledInstruction>)
    requires
        message.instructions() == instruction_contents(instructions),
    ensures
        has_valid_indexes(message) <==> (forall|i: int|
            #![trigger instructions[i]]
            0 <= i < instructions.len() ==> {
                &&& 0 < instructions[i].program_id_index < message.num_static_keys()
                &&& forall|j: int|
                    0 <= j < instructions[i].accounts@.len()
                        ==> (#[trigger] instructions[i].accounts@[j]) < message.num_accounts()
            }),
{
    law_list_contents(Seq::empty(), instructions, Seq::empty());
    if has_valid_indexes(message) {
        assert forall|i: int|
            #![trigger instructions[i]]
            0 <= i < instructions.len() implies {
            &&& 0 < instructions[i].program_id_index < message.num_static_keys()
            &&& forall|j: int|
                0 <= j < instructions[i].accounts@.len()
                    ==> (#[trigger] instructions[i].accounts@[j]) < message.num_accounts()
        } by {
            let contents = message.instructions()[i];
            assert(names_program(contents, message.num_static_keys()));
            assert forall|j: int| 0 <= j < instructions[i].accounts@.len() implies (
            #[trigger] instructions[i].accounts@[j]) < message.num_accounts() by {
                assert(contents.1[j] < message.num_accounts());
            }
        }
    }
}

/// A lookup is empty in the contents of a message exactly if it is.
proof fn lemma_lookups_of_fields(lookups: Seq<MessageAddressTableLookup>)
    ensures
        has_empty_lookup(lookup_contents(lookups)) <==> exists|i: int|
            #![trigger lookups[i]]
            0 <= i < lookups.len() && lookups[i].writable_indexes@.len() == 0
                && lookups[i].readonly_indexes@.len() == 0,
{
    law_list_contents(Seq::empty(), Seq::empty(), lookups);
    if exists|i: int|
        #![trigger lookups[i]]
        0 <= i < lookups.len() && lookups[i].writable_indexes@.len() == 0
            && lookups[i].readonly_indexes@.len() == 0 {
        let i = choose|i: int|
            #![trigger lookups[i]]
            0 <= i < lookups.len() && lookups[i].writable_indexes@.len() == 0
                && lookups[i].readonly_indexes@.len() == 0;
        assert(lookup_contents(lookups)[i].1.len() == 0);
    }
}

} // verus!
