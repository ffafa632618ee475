//! Transactions that have passed sanitization.

use crate::keys::Signature;
use crate::message::{law_header_and_keys_are_fields, SanitizeError, VersionedMessage};
use crate::sanitize::{is_well_formed, message_verdict, names_accounts, names_program};
use crate::sanitize::{law_sanitized_is_well_formed, sanitize_message};
use vstd::prelude::*;

verus! {

/// The Falcon-512 material of the first signer.
#[derive(Debug, PartialEq, Eq)]
pub struct FalconSigner {
    pub pubkey: Vec<u8>,
    pub signature: Vec<u8>,
}

impl View for FalconSigner {
    type V = (Seq<u8>, Seq<u8>);

    open spec fn view(&self) -> (Seq<u8>, Seq<u8>) {
        (self.pubkey@, self.signature@)
    }
}

impl Clone for FalconSigner {
    fn clone(&self) -> (copy: Self)
        ensures
            copy@ == self@,
    {
        FalconSigner { pubkey: self.pubkey.clone(), signature: self.signature.clone() }
    }
}

/// A transaction as it comes in.
#[derive(Debug, PartialEq, Eq)]
pub struct VersionedTransaction {
    /// List of signatures.
    pub signatures: Vec<Signature>,
    /// Message to sign.
    pub message: VersionedMessage,
    /// Falcon-512 signer data.
    pub falcon_signer: Option<FalconSigner>,
}

/// The verdict on the number of signatures: as many as the message requires,
/// and each for one of the keys that the message itself holds.
pub open spec fn signatures_verdict(
    num_required: nat,
    num_static_keys: nat,
    num_signatures: nat,
) -> Result<(), SanitizeError> {
    if num_signatures < num_required {
        Err(SanitizeError::IndexOutOfBounds)
    } else if num_signatures > num_required {
        Err(SanitizeError::InvalidValue)
    } else if num_signatures > num_static_keys {
        Err(SanitizeError::IndexOutOfBounds)
    } else {
        Ok(())
    }
}

/// The verdict on a transaction, given those on its signatures and on its
/// message: a complaint about the signatures comes first.
pub fn combined_verdict(
    signatures: Result<(), SanitizeError>,
    message: Result<(), SanitizeError>,
) -> (verdict: Result<(), SanitizeError>)
    ensures
        verdict == if signatures is Err {
            signatures
        } else {
            message
        },
{
    match signatures {
        Err(error) => Err(error),
        Ok(()) => message,
    }
}

impl VersionedTransaction {
    /// The verdict on the number of signatures.
    pub open spec fn spec_sanitize_signatures(self) -> Result<(), SanitizeError> {
        signatures_verdict(
            self.message.spec_header().num_required_signatures as nat,
            self.message.spec_static_account_keys().len(),
            self.signatures@.len(),
        )
    }

    /// Checks the number of signatures against the message.
    pub fn sanitize_signatures(&self) -> (verdict: Result<(), SanitizeError>)
        ensures
            verdict == self.spec_sanitize_signatures(),
            verdict is Ok <==> (self.signatures@.len()
                == self.message@.header().num_required_signatures && self.signatures@.len()
                <= self.message@.num_static_keys()),
            self.signatures@.len() > self.message@.header().num_required_signatures ==> verdict
                == Err::<(), SanitizeError>(SanitizeError::InvalidValue),
            (verdict is Err && self.signatures@.len()
                <= self.message@.header().num_required_signatures) ==> verdict
                == Err::<(), SanitizeError>(SanitizeError::IndexOutOfBounds),
    {
        let num_required: usize = self.message.header().num_required_signatures as usize;
        let num_static_keys: usize = self.message.static_account_keys().len();
        let num_signatures: usize = self.signatures.len();
        if num_signatures < num_required {
            return Err(SanitizeError::IndexOutOfBounds);
        }
        if num_signatures > num_required {
            return Err(SanitizeError::InvalidValue);
        }
        if num_signatures > num_static_keys {
            return Err(SanitizeError::IndexOutOfBounds);
        }
        Ok(())
    }
}

impl VersionedTransaction {
    /// The verdict on the transaction.
    pub open spec fn verdict(self) -> Result<(), SanitizeError> {
        if self.spec_sanitize_signatures() is Err {
            self.spec_sanitize_signatures()
        } else {
            message_verdict(self.message@)
        }
    }
}

/// Wraps a sanitized `VersionedMessage`.
#[derive(Debug, PartialEq, Eq)]
pub struct SanitizedVersionedMessage {
    message: VersionedMessage,
}

impl SanitizedVersionedMessage {
    #[verifier::type_invariant]
    spec fn is_sanitized(self) -> bool {
        self.wf()
    }

    /// The message.
    pub closed spec fn spec_message(self) -> VersionedMessage {
        self.message
    }

    /// What holds of every sanitized message: it has passed sanitization, so
    /// its header is sound and the indexes of its instructions are in range.
    pub open spec fn wf(self) -> bool {
        &&& message_verdict(self.spec_message()@) is Ok
        &&& is_well_formed(self.spec_message()@)
    }

    /// The message.
    pub fn message(&self) -> (message: &VersionedMessage)
        ensures
            *message == self.spec_message(),
            self.wf(),
    {
        proof {
            use_type_invariant(self);
        }
        &self.message
    }
}

impl Clone for SanitizedVersionedMessage {
    fn clone(&self) -> (copy: Self)
        ensures
            copy.spec_message()@ == self.spec_message()@,
            copy.spec_message().spec_header() == self.spec_message().spec_header(),
            copy.spec_message().spec_static_account_keys()
                == self.spec_message().spec_static_account_keys(),
    {
        proof {
            use_type_invariant(self);
        }
        SanitizedVersionedMessage { message: self.message.clone() }
    }
}

/// Wraps a sanitized `VersionedTransaction` to provide a safe API.
#[derive(Debug, PartialEq, Eq)]
pub struct SanitizedVersionedTransaction {
    signatures: Vec<Signature>,
    message: SanitizedVersionedMessage,
    falcon_signer: Option<FalconSigner>,
}

impl SanitizedVersionedTransaction {
    #[verifier::type_invariant]
    spec fn is_sanitized(self) -> bool {
        self.signatures_match()
    }

    /// The signatures.
    pub closed spec fn spec_signatures(self) -> Vec<Signature> {
        self.signatures
    }

    /// The sanitized message.
    pub closed spec fn spec_message(self) -> SanitizedVersionedMessage {
        self.message
    }

    /// The Falcon-512 signer data.
    pub closed spec fn spec_falcon_signer(self) -> Option<FalconSigner> {
        self.falcon_signer
    }

    /// There are as many signatures as the message requires, and as many keys.
    pub open spec fn signatures_match(self) -> bool {
        signatures_verdict(
            self.spec_message().spec_message().spec_header().num_required_signatures as nat,
            self.spec_message().spec_message().spec_static_account_keys().len(),
            self.spec_signatures()@.len(),
        ) is Ok
    }

    /// What holds of every sanitized transaction: its message has passed
    /// sanitization, and its signatures match the message.
    pub open spec fn wf(self) -> bool {
        self.spec_message().wf() && self.signatures_match()
    }

    /// Sanitizes a transaction: its signatures, then its message.
    pub fn try_new(tx: VersionedTransaction) -> (result: Result<Self, SanitizeError>)
        ensures
            result is Ok <==> tx.verdict() is Ok,
            result is Ok <==> (tx.signatures@.len() == tx.message@.header().num_required_signatures
                && tx.signatures@.len() <= tx.message@.num_static_keys() && is_well_formed(
                tx.message@,
            )),
            result matches Ok(sanitized) ==> {
                &&& sanitized.wf()
                &&& sanitized.spec_signatures() == tx.signatures
                &&& sanitized.spec_message().spec_message() == tx.message
                &&& sanitized.spec_falcon_signer() == tx.falcon_signer
            },
            result matches Err(error) ==> tx.verdict() == Err::<(), SanitizeError>(error),
    {
        match combined_verdict(tx.sanitize_signatures(), sanitize_message(&tx.message)) {
            Err(error) => Err(error),
            Ok(()) => Ok(
                SanitizedVersionedTransaction {
                    signatures: tx.signatures,
                    message: SanitizedVersionedMessage { message: tx.message },
                    falcon_signer: tx.falcon_signer,
                },
            ),
        }
    }

    /// The sanitized message.
    pub fn get_message(&self) -> (message: &SanitizedVersionedMessage)
        ensures
            *message == self.spec_message(),
            self.wf(),
    {
        proof {
            use_type_invariant(self);
            use_type_invariant(&self.message);
        }
        &self.message
    }

    /// Consumes the SanitizedVersionedTransaction, returning the fields individually.
    pub fn destruct(self) -> (fields: (
        Vec<Signature>,
        SanitizedVersionedMessage,
        Option<FalconSigner>,
    ))
        ensures
            self.wf(),
            fields == (self.spec_signatures(), self.spec_message(), self.spec_falcon_signer()),
    {
        proof {
            use_type_invariant(&self);
            use_type_invariant(&self.message);
        }
        (self.signatures, self.message, self.falcon_signer)
    }
}

impl Clone for SanitizedVersionedTransaction {
    fn clone(&self) -> (copy: Self)
        ensures
            copy.spec_signatures()@ == self.spec_signatures()@,
            copy.spec_message().spec_message()@ == self.spec_message().spec_message()@,
            copy.spec_falcon_signer() is Some <==> self.spec_falcon_signer() is Some,
            copy.spec_falcon_signer() is Some ==> copy.spec_falcon_signer()->0@
                == self.spec_falcon_signer()->0@,
    {
        proof {
            use_type_invariant(self);
        }
        let signatures = self.signatures.clone();
        assert(signatures@ =~= self.signatures@);
        SanitizedVersionedTransaction {
            signatures,
            message: self.message.clone(),
            falcon_signer: self.falcon_signer.clone(),
        }
    }
}

impl TryFrom<VersionedTransaction> for SanitizedVersionedTransaction {
    type Error = SanitizeError;

    fn try_from(tx: VersionedTransaction) -> (result: Result<Self, SanitizeError>)
        ensures
            result is Ok <==> tx.verdict() is Ok,
            result is Ok <==> (tx.signatures@.len() == tx.message@.header().num_required_signatures
                && tx.signatures@.len() <= tx.message@.num_static_keys() && is_well_formed(
                tx.message@,
            )),
            result matches Ok(sanitized) ==> {
                &&& sanitized.wf()
                &&& sanitized.spec_signatures() == tx.signatures
                &&& sanitized.spec_message().spec_message() == tx.message
                &&& sanitized.spec_falcon_signer() == tx.falcon_signer
            },
            result matches Err(error) ==> tx.verdict() == Err::<(), SanitizeError>(error),
    {
        Self::try_new(tx)
    }
}

impl vstd::std_specs::convert::TryFromSpecImpl<VersionedTransaction> for SanitizedVersionedTransaction {
    open spec fn obeys_try_from_spec() -> bool {
        true
    }

    closed spec fn try_from_spec(tx: VersionedTransaction) -> Result<Self, SanitizeError> {
        match tx.verdict() {
            Err(error) => Err(error),
            Ok(()) => Ok(
                SanitizedVersionedTransaction {
                    signatures: tx.signatures,
                    message: SanitizedVersionedMessage { message: tx.message },
                    falcon_signer: tx.falcon_signer,
                },
            ),
        }
    }
}

/// A sanitized transaction has a signature for its fee payer, exactly as many
/// signatures as its message requires, and a key in the message for each.
pub proof fn law_signatures_match_message(tx: SanitizedVersionedTransaction)
    requires
        tx.wf(),
    ensures
        tx.spec_signatures()@.len() >= 1,
        tx.spec_signatures()@.len()
            == tx.spec_message().spec_message().spec_header().num_required_signatures,
        tx.spec_signatures()@.len()
            <= tx.spec_message().spec_message().spec_static_account_keys().len(),
        tx.spec_signatures()@.len()
            == tx.spec_message().spec_message()@.header().num_required_signatures,
        tx.spec_signatures()@.len() <= tx.spec_message().spec_message()@.num_static_keys(),
{
}

/// A transaction whose signatures do not match its message is refused for
/// that, whatever the message says.
pub proof fn law_signatures_are_judged_first(tx: VersionedTransaction)
    requires
        tx.signatures@.len() != tx.message.spec_header().num_required_signatures,
    ensures
        tx.verdict() is Err,
        tx.verdict() == tx.spec_sanitize_signatures(),
{
}

/// Sanitizing the fields of a sanitized transaction again succeeds.
pub proof fn law_sanitizing_is_idempotent(
    tx: VersionedTransaction,
    sanitized: SanitizedVersionedTransaction,
)
    requires
        sanitized.wf(),
        tx.signatures == sanitized.spec_signatures(),
        tx.message == sanitized.spec_message().spec_message(),
    ensures
        tx.verdict() is Ok,
{
}

/// In a sanitized transaction the program of each instruction is one of the
/// keys that the message itself holds, and not the fee payer, and each account
/// index is in range.
pub proof fn law_sanitized_indexes_are_in_range(tx: SanitizedVersionedTransaction, index: int)
    requires
        tx.wf(),
        0 <= index < tx.spec_message().spec_message()@.instructions().len(),
    ensures
        names_program(
            tx.spec_message().spec_message()@.instructions()[index],
            tx.spec_message().spec_message().spec_static_account_keys().len(),
        ),
        names_accounts(
            tx.spec_message().spec_message()@.instructions()[index],
            tx.spec_message().spec_message()@.num_accounts(),
        ),
{
}

/// The numbers of signatures that are right: as many as required, and no more
/// than there are keys. One signature too few, or a key too few, is an index
/// out of bounds, and a signature too many is an invalid value.
pub proof fn law_signature_counts(num_required: nat, num_static_keys: nat, num_signatures: nat)
    ensures
        signatures_verdict(num_required, num_static_keys, num_signatures) is Ok <==> (num_signatures
            == num_required && num_signatures <= num_static_keys),
        num_signatures < num_required ==> signatures_verdict(
            num_required,
            num_static_keys,
            num_signatures,
        ) == Err::<(), SanitizeError>(SanitizeError::IndexOutOfBounds),
        num_signatures > num_required ==> signatures_verdict(
            num_required,
            num_static_keys,
            num_signatures,
        ) == Err::<(), SanitizeError>(SanitizeError::InvalidValue),
        (num_signatures == num_required && num_signatures > num_static_keys) ==> signatures_verdict(
            num_required,
            num_static_keys,
            num_signatures,
        ) == Err::<(), SanitizeError>(SanitizeError::IndexOutOfBounds),
{
}

/// Every transaction with a well-formed message, as many signatures as the
/// header of the message requires, and a key of the message for each of them
/// passes, and no other does. If the signatures are right, the verdict is that
/// on the message.
pub proof fn law_which_transactions_pass(tx: VersionedTransaction)
    ensures
        tx.verdict() is Ok <==> (tx.signatures@.len()
            == tx.message@.header().num_required_signatures && tx.signatures@.len()
            <= tx.message@.num_static_keys() && is_well_formed(tx.message@)),
        (tx.signatures@.len() == tx.message@.header().num_required_signatures
            && tx.signatures@.len() <= tx.message@.num_static_keys()) ==> tx.verdict()
            == message_verdict(tx.message@),
        tx.signatures@.len() < tx.message@.header().num_required_signatures ==> tx.verdict()
            == Err::<(), SanitizeError>(SanitizeError::IndexOutOfBounds),
        tx.signatures@.len() > tx.message@.header().num_required_signatures ==> tx.verdict()
            == Err::<(), SanitizeError>(SanitizeError::InvalidValue),
        (tx.signatures@.len() == tx.message@.header().num_required_signatures
            && tx.signatures@.len() > tx.message@.num_static_keys()) ==> tx.verdict()
            == Err::<(), SanitizeError>(SanitizeError::IndexOutOfBounds),
{
    law_header_and_keys_are_fields(tx.message);
    law_sanitized_is_well_formed(tx.message@);
}

/// The material of a signer is its public key and its signature, as they are.
pub proof fn law_falcon_signer_is_its_fields(signer: FalconSigner)
    ensures
        signer@ == (signer.pubkey@, signer.signature@),
{
}

} // verus!
