//! Transaction messages and their sanitization.

use crate::keys::Pubkey;
use vstd::prelude::*;

verus! {

/// Why a transaction or its message is not well-formed.
#[derive(Clone, Copy, Debug, PartialEq, Eq, Structural)]
pub enum SanitizeError {
    IndexOutOfBounds,
    ValueOutOfBounds,
    InvalidValue,
}

/// How many account keys of a message are signed and read-only.
#[derive(Clone, Copy, Debug, PartialEq, Eq, Structural)]
pub struct MessageHeader {
    /// The number of signatures that the message requires. They belong to the
    /// first keys of the message.
    pub num_required_signatures: u8,
    /// How many of the signed keys, counted from the last one, are read-only.
    pub num_readonly_signed_accounts: u8,
    /// How many of the unsigned keys, counted from the last one, are read-only.
    pub num_readonly_unsigned_accounts: u8,
}

/// An instruction that names its program and accounts by index.
#[derive(Debug, PartialEq, Eq)]
pub struct CompiledInstruction {
    pub program_id_index: u8,
    pub accounts: Vec<u8>,
    pub data: Vec<u8>,
}

impl View for CompiledInstruction {
    type V = (u8, Seq<u8>, Seq<u8>);

    open spec fn view(&self) -> (u8, Seq<u8>, Seq<u8>) {
        (self.program_id_index, self.accounts@, self.data@)
    }
}

impl Clone for CompiledInstruction {
    fn clone(&self) -> (copy: Self)
        ensures
            copy@ == self@,
    {
        CompiledInstruction {
            program_id_index: self.program_id_index,
            accounts: self.accounts.clone(),
            data: self.data.clone(),
        }
    }
}

/// Accounts that a message loads from an address lookup table.
#[derive(Debug, PartialEq, Eq)]
pub struct MessageAddressTableLookup {
    pub account_key: Pubkey,
    pub writable_indexes: Vec<u8>,
    pub readonly_indexes: Vec<u8>,
}

impl View for MessageAddressTableLookup {
    type V = (Seq<u8>, Seq<u8>, Seq<u8>);

    open spec fn view(&self) -> (Seq<u8>, Seq<u8>, Seq<u8>) {
        (self.account_key@, self.writable_indexes@, self.readonly_indexes@)
    }
}

impl Clone for MessageAddressTableLookup {
    fn clone(&self) -> (copy: Self)
        ensures
            copy@ == self@,
    {
        MessageAddressTableLookup {
            account_key: self.account_key,
            writable_indexes: self.writable_indexes.clone(),
            readonly_indexes: self.readonly_indexes.clone(),
        }
    }
}

/// Compute budget of a V1 message.
#[derive(Clone, Copy, Debug, PartialEq, Eq, Structural)]
pub struct TransactionConfig {
    pub priority_fee: Option<u64>,
    pub compute_unit_limit: Option<u32>,
    pub loaded_accounts_data_size_limit: Option<u32>,
    pub heap_size: Option<u32>,
}

/// A message in the format that has no version.
#[derive(Debug, PartialEq, Eq)]
pub struct LegacyMessage {
    pub header: MessageHeader,
    pub account_keys: Vec<Pubkey>,
    pub recent_blockhash: [u8; 32],
    pub instructions: Vec<CompiledInstruction>,
}

/// A message that can load accounts from address lookup tables.
#[derive(Debug, PartialEq, Eq)]
pub struct V0Message {
    pub header: MessageHeader,
    pub account_keys: Vec<Pubkey>,
    pub recent_blockhash: [u8; 32],
    pub instructions: Vec<CompiledInstruction>,
    pub address_table_lookups: Vec<MessageAddressTableLookup>,
}

/// A message that carries its compute budget.
#[derive(Debug, PartialEq, Eq)]
pub struct V1Message {
    pub header: MessageHeader,
    pub config: TransactionConfig,
    pub lifetime_specifier: [u8; 32],
    pub account_keys: Vec<Pubkey>,
    pub instructions: Vec<CompiledInstruction>,
}

/// A message of any version.
#[derive(Debug, PartialEq, Eq)]
pub enum VersionedMessage {
    Legacy(LegacyMessage),
    V0(V0Message),
    V1(V1Message),
}

/// What a message says.
pub enum MessageView {
    Legacy {
        header: MessageHeader,
        account_keys: Seq<Seq<u8>>,
        recent_blockhash: Seq<u8>,
        instructions: Seq<(u8, Seq<u8>, Seq<u8>)>,
    },
    V0 {
        header: MessageHeader,
        account_keys: Seq<Seq<u8>>,
        recent_blockhash: Seq<u8>,
        instructions: Seq<(u8, Seq<u8>, Seq<u8>)>,
        address_table_lookups: Seq<(Seq<u8>, Seq<u8>, Seq<u8>)>,
    },
    V1 {
        header: MessageHeader,
        config: TransactionConfig,
        lifetime_specifier: Seq<u8>,
        account_keys: Seq<Seq<u8>>,
        instructions: Seq<(u8, Seq<u8>, Seq<u8>)>,
    },
}

/// How many accounts a list of lookups loads.
pub open spec fn num_looked_up(lookups: Seq<(Seq<u8>, Seq<u8>, Seq<u8>)>) -> nat
    decreases lookups.len(),
{
    if lookups.len() == 0 {
        0
    } else {
        num_looked_up(lookups.drop_last()) + lookups.last().1.len() + lookups.last().2.len()
    }
}

impl MessageView {
    /// The header of the message.
    pub open spec fn header(self) -> MessageHeader {
        match self {
            MessageView::Legacy { header, .. } => header,
            MessageView::V0 { header, .. } => header,
            MessageView::V1 { header, .. } => header,
        }
    }

    /// How many keys the message itself holds.
    pub open spec fn num_static_keys(self) -> nat {
        match self {
            MessageView::Legacy { account_keys, .. } => account_keys.len(),
            MessageView::V0 { account_keys, .. } => account_keys.len(),
            MessageView::V1 { account_keys, .. } => account_keys.len(),
        }
    }

    /// How many accounts the message gives to its instructions: its own keys
    /// and those that it looks up.
    pub open spec fn num_accounts(self) -> nat {
        match self {
            MessageView::V0 { address_table_lookups, .. } => self.num_static_keys()
                + num_looked_up(address_table_lookups),
            _ => self.num_static_keys(),
        }
    }

    /// The instructions: program index, account indexes and data of each.
    pub open spec fn instructions(self) -> Seq<(u8, Seq<u8>, Seq<u8>)> {
        match self {
            MessageView::Legacy { instructions, .. } => instructions,
            MessageView::V0 { instructions, .. } => instructions,
            MessageView::V1 { instructions, .. } => instructions,
        }
    }
}

/// The bytes of a list of keys.
pub open spec fn key_bytes(keys: Seq<Pubkey>) -> Seq<Seq<u8>> {
    keys.map_values(|key: Pubkey| key@)
}

/// The contents of a list of instructions.
pub open spec fn instruction_contents(
    instructions: Seq<CompiledInstruction>,
) -> Seq<(u8, Seq<u8>, Seq<u8>)> {
    instructions.map_values(|instruction: CompiledInstruction| instruction@)
}

/// The contents of a list of lookups.
pub open spec fn lookup_contents(
    lookups: Seq<MessageAddressTableLookup>,
) -> Seq<(Seq<u8>, Seq<u8>, Seq<u8>)> {
    lookups.map_values(|lookup: MessageAddressTableLookup| lookup@)
}

impl View for LegacyMessage {
    type V = MessageView;

    open spec fn view(&self) -> MessageView {
        MessageView::Legacy {
            header: self.header,
            account_keys: key_bytes(self.account_keys@),
            recent_blockhash: self.recent_blockhash@,
            instructions: instruction_contents(self.instructions@),
        }
    }
}

impl Clone for LegacyMessage {
    fn clone(&self) -> (copy: Self)
        ensures
            copy@ == self@,
            copy.header == self.header,
            copy.account_keys@ == self.account_keys@,
    {
        let copy = LegacyMessage {
            header: self.header,
            account_keys: self.account_keys.clone(),
            recent_blockhash: self.recent_blockhash,
            instructions: self.instructions.clone(),
        };
        assert(key_bytes(copy.account_keys@) =~= key_bytes(self.account_keys@));
        assert(instruction_contents(copy.instructions@) =~= instruction_contents(
            self.instructions@,
        ));
        copy
    }
}

impl View for V0Message {
    type V = MessageView;

    open spec fn view(&self) -> MessageView {
        MessageView::V0 {
            header: self.header,
            account_keys: key_bytes(self.account_keys@),
            recent_blockhash: self.recent_blockhash@,
            instructions: instruction_contents(self.instructions@),
            address_table_lookups: lookup_contents(self.address_table_lookups@),
        }
    }
}

impl Clone for V0Message {
    fn clone(&self) -> (copy: Self)
        ensures
            copy@ == self@,
            copy.header == self.header,
            copy.account_keys@ == self.account_keys@,
    {
        let copy = V0Message {
            header: self.header,
            account_keys: self.account_keys.clone(),
            recent_blockhash: self.recent_blockhash,
            instructions: self.instructions.clone(),
            address_table_lookups: self.address_table_lookups.clone(),
        };
        assert(key_bytes(copy.account_keys@) =~= key_bytes(self.account_keys@));
        assert(instruction_contents(copy.instructions@) =~= instruction_contents(
            self.instructions@,
        ));
        assert(lookup_contents(copy.address_table_lookups@) =~= lookup_contents(
            self.address_table_lookups@,
        ));
        copy
    }
}

impl View for V1Message {
    type V = MessageView;

    open spec fn view(&self) -> MessageView {
        MessageView::V1 {
            header: self.header,
            config: self.config,
            lifetime_specifier: self.lifetime_specifier@,
            account_keys: key_bytes(self.account_keys@),
            instructions: instruction_contents(self.instructions@),
        }
    }
}

impl Clone for V1Message {
    fn clone(&self) -> (copy: Self)
        ensures
            copy@ == self@,
            copy.header == self.header,
            copy.account_keys@ == self.account_keys@,
    {
        let copy = V1Message {
            header: self.header,
            config: self.config,
            lifetime_specifier: self.lifetime_specifier,
            account_keys: self.account_keys.clone(),
            instructions: self.instructions.clone(),
        };
        assert(key_bytes(copy.account_keys@) =~= key_bytes(self.account_keys@));
        assert(instruction_contents(copy.instructions@) =~= instruction_contents(
            self.instructions@,
        ));
        copy
    }
}

impl View for VersionedMessage {
    type V = MessageView;

    open spec fn view(&self) -> MessageView {
        match self {
            VersionedMessage::Legacy(message) => message@,
            VersionedMessage::V0(message) => message@,
            VersionedMessage::V1(message) => message@,
        }
    }
}

impl Clone for VersionedMessage {
    fn clone(&self) -> (copy: Self)
        ensures
            copy@ == self@,
            copy.spec_header() == self.spec_header(),
            copy.spec_static_account_keys() == self.spec_static_account_keys(),
    {
        match self {
            VersionedMessage::Legacy(message) => VersionedMessage::Legacy(message.clone()),
            VersionedMessage::V0(message) => VersionedMessage::V0(message.clone()),
            VersionedMessage::V1(message) => VersionedMessage::V1(message.clone()),
        }
    }
}

/// The header describes more keys than there are.
pub open spec fn has_too_few_keys(header: MessageHeader, num_keys: nat) -> bool {
    header.num_required_signatures + header.num_readonly_unsigned_accounts > num_keys
}

/// No signer is writable, so none can pay the fee.
pub open spec fn has_no_fee_payer(header: MessageHeader) -> bool {
    header.num_readonly_signed_accounts >= header.num_required_signatures
}

/// The header describes no more keys than there are, and at least one signer
/// that is writable: the fee payer.
pub open spec fn is_sound_header(header: MessageHeader, num_keys: nat) -> bool {
    !has_too_few_keys(header, num_keys) && !has_no_fee_payer(header)
}

impl VersionedMessage {
    /// The header of the message.
    pub open spec fn spec_header(self) -> MessageHeader {
        match self {
            VersionedMessage::Legacy(message) => message.header,
            VersionedMessage::V0(message) => message.header,
            VersionedMessage::V1(message) => message.header,
        }
    }

    /// The account keys that the message itself holds.
    pub open spec fn spec_static_account_keys(self) -> Seq<Pubkey> {
        match self {
            VersionedMessage::Legacy(message) => message.account_keys@,
            VersionedMessage::V0(message) => message.account_keys@,
            VersionedMessage::V1(message) => message.account_keys@,
        }
    }

    /// The header of the message.
    pub fn header(&self) -> (header: MessageHeader)
        ensures
            header == self.spec_header(),
            header == self@.header(),
    {
        match self {
            VersionedMessage::Legacy(message) => message.header,
            VersionedMessage::V0(message) => message.header,
            VersionedMessage::V1(message) => message.header,
        }
    }

    /// The account keys that the message itself holds.
    pub fn static_account_keys(&self) -> (keys: &[Pubkey])
        ensures
            keys@ == self.spec_static_account_keys(),
            keys@.len() == self@.num_static_keys(),
    {
        match self {
            VersionedMessage::Legacy(message) => message.account_keys.as_slice(),
            VersionedMessage::V0(message) => message.account_keys.as_slice(),
            VersionedMessage::V1(message) => message.account_keys.as_slice(),
        }
    }
}

/// What a message says is what its fields hold: the header as it is, and each
/// key, instruction and lookup in its place. A message of any version says what
/// the message that it wraps says.
pub proof fn law_contents_are_the_fields(
    legacy: LegacyMessage,
    v0: V0Message,
    v1: V1Message,
)
    ensures
        VersionedMessage::Legacy(legacy)@ == legacy@,
        VersionedMessage::V0(v0)@ == v0@,
        VersionedMessage::V1(v1)@ == v1@,
        legacy@ == (MessageView::Legacy {
            header: legacy.header,
            account_keys: key_bytes(legacy.account_keys@),
            recent_blockhash: legacy.recent_blockhash@,
            instructions: instruction_contents(legacy.instructions@),
        }),
        v0@ == (MessageView::V0 {
            header: v0.header,
            account_keys: key_bytes(v0.account_keys@),
            recent_blockhash: v0.recent_blockhash@,
            instructions: instruction_contents(v0.instructions@),
            address_table_lookups: lookup_contents(v0.address_table_lookups@),
        }),
        v1@ == (MessageView::V1 {
            header: v1.header,
            config: v1.config,
            lifetime_specifier: v1.lifetime_specifier@,
            account_keys: key_bytes(v1.account_keys@),
            instructions: instruction_contents(v1.instructions@),
        }),
{
}

/// The contents of the lists in a message, item by item.
pub proof fn law_list_contents(
    keys: Seq<Pubkey>,
    instructions: Seq<CompiledInstruction>,
    lookups: Seq<MessageAddressTableLookup>,
)
    ensures
        key_bytes(keys).len() == keys.len(),
        forall|i: int| 0 <= i < keys.len() ==> #[trigger] key_bytes(keys)[i] == keys[i].0@,
        instruction_contents(instructions).len() == instructions.len(),
        forall|i: int|
            0 <= i < instructions.len() ==> #[trigger] instruction_contents(instructions)[i] == (
                instructions[i].program_id_index,
                instructions[i].accounts@,
                instructions[i].data@,
            ),
        lookup_contents(lookups).len() == lookups.len(),
        forall|i: int|
            0 <= i < lookups.len() ==> #[trigger] lookup_contents(lookups)[i] == (
                lookups[i].account_key.0@,
                lookups[i].writable_indexes@,
                lookups[i].readonly_indexes@,
            ),
{
}

/// The header and the keys of a message are its fields, whatever its version,
/// and the same as those of its contents.
pub proof fn law_header_and_keys_are_fields(message: VersionedMessage)
    ensures
        message.spec_header() == match message {
            VersionedMessage::Legacy(m) => m.header,
            VersionedMessage::V0(m) => m.header,
            VersionedMessage::V1(m) => m.header,
        },
        message.spec_static_account_keys() == match message {
            VersionedMessage::Legacy(m) => m.account_keys@,
            VersionedMessage::V0(m) => m.account_keys@,
            VersionedMessage::V1(m) => m.account_keys@,
        },
        message@.header() == message.spec_header(),
        message@.num_static_keys() == message.spec_static_account_keys().len(),
        message@.instructions() == match message {
            VersionedMessage::Legacy(m) => instruction_contents(m.instructions@),
            VersionedMessage::V0(m) => instruction_contents(m.instructions@),
            VersionedMessage::V1(m) => instruction_contents(m.instructions@),
        },
        message@.num_accounts() == match message {
            VersionedMessage::V0(m) => m.account_keys@.len() + num_looked_up(
                lookup_contents(m.address_table_lookups@),
            ),
            _ => message.spec_static_account_keys().len(),
        },
{
}

/// Each lookup loads its writable and its read-only accounts.
pub proof fn law_each_lookup_counts(
    lookups: Seq<(Seq<u8>, Seq<u8>, Seq<u8>)>,
    lookup: (Seq<u8>, Seq<u8>, Seq<u8>),
)
    ensures
        num_looked_up(Seq::<(Seq<u8>, Seq<u8>, Seq<u8>)>::empty()) == 0,
        num_looked_up(lookups.push(lookup)) == num_looked_up(lookups) + lookup.1.len()
            + lookup.2.len(),
{
    assert(lookups.push(lookup).drop_last() =~= lookups);
}

/// A header is sound exactly if the signed and the read-only unsigned keys are
/// no more than there are keys, and fewer signed keys are read-only than there
/// are signed keys.
pub proof fn law_sound_header(header: MessageHeader, num_keys: nat)
    ensures
        is_sound_header(header, num_keys) <==> (header.num_required_signatures
            + header.num_readonly_unsigned_accounts <= num_keys
            && header.num_readonly_signed_accounts < header.num_required_signatures),
        has_too_few_keys(header, num_keys) <==> header.num_required_signatures
            + header.num_readonly_unsigned_accounts > num_keys,
        has_no_fee_payer(header) <==> header.num_readonly_signed_accounts
            >= header.num_required_signatures,
{
}

} // verus!
