//! What the operations send and receive. Amounts are counted in the
//! smallest unit; keys, secrets and identifiers are held as text.

use vstd::prelude::*;

verus! {

/// An amount with a blinded secret, handed to the mint to be signed.
#[derive(Debug, Clone, PartialEq, Eq)]
pub struct BlindedMessage {
    pub amount: u64,
    /// The blinded secret, a public key.
    pub blinded_secret: String,
}

/// What a [`BlindedMessage`] holds, with its strings and vectors taken as sequences.
pub ghost struct BlindedMessageView {
    pub amount: u64,
    pub blinded_secret: Seq<char>,
}

impl View for BlindedMessage {
    type V = BlindedMessageView;

    open spec fn view(&self) -> BlindedMessageView {
        BlindedMessageView { amount: self.amount, blinded_secret: self.blinded_secret@ }
    }
}

impl DeepView for BlindedMessage {
    type V = BlindedMessageView;

    open spec fn deep_view(&self) -> BlindedMessageView {
        self@
    }
}

/// A batch of blinded messages under an identifier that the caller keeps
/// to match the signatures to the batch. The identifier is never sent.
#[derive(Debug, Clone, PartialEq, Eq)]
pub struct BlindedMessages {
    pub id: String,
    pub blinded_messages: Vec<BlindedMessage>,
}

/// What a [`BlindedMessages`] holds, with its strings and vectors taken as sequences.
pub ghost struct BlindedMessagesView {
    pub id: Seq<char>,
    pub blinded_messages: Seq<BlindedMessageView>,
}

impl View for BlindedMessages {
    type V = BlindedMessagesView;

    open spec fn view(&self) -> BlindedMessagesView {
        BlindedMessagesView {
            id: self.id@,
            blinded_messages: self.blinded_messages.deep_view(),
        }
    }
}

impl DeepView for BlindedMessages {
    type V = BlindedMessagesView;

    open spec fn deep_view(&self) -> BlindedMessagesView {
        self@
    }
}

/// The mint's blind signature on one blinded message.
#[derive(Debug, Clone, PartialEq, Eq)]
pub struct BlindedSignature {
    /// The keyset that signed.
    pub keyset_id: String,
    pub amount: u64,
    /// The signature, a public key.
    pub signature: String,
}

/// What a [`BlindedSignature`] holds, with its strings and vectors taken as sequences.
pub ghost struct BlindedSignatureView {
    pub keyset_id: Seq<char>,
    pub amount: u64,
    pub signature: Seq<char>,
}

impl View for BlindedSignature {
    type V = BlindedSignatureView;

    open spec fn view(&self) -> BlindedSignatureView {
        BlindedSignatureView {
            keyset_id: self.keyset_id@,
            amount: self.amount,
            signature: self.signature@,
        }
    }
}

impl DeepView for BlindedSignature {
    type V = BlindedSignatureView;

    open spec fn deep_view(&self) -> BlindedSignatureView {
        self@
    }
}

/// A signed secret with its amount and keyset: the unit of value that goes
/// back to the mint.
#[derive(Debug, Clone, PartialEq, Eq)]
pub struct Proof {
    pub amount: u64,
    pub secret: String,
    /// The unblinded signature, a public key.
    pub signature: String,
    pub keyset_id: String,
}

/// What a [`Proof`] holds, with its strings and vectors taken as sequences.
pub ghost struct ProofView {
    pub amount: u64,
    pub secret: Seq<char>,
    pub signature: Seq<char>,
    pub keyset_id: Seq<char>,
}

impl View for Proof {
    type V = ProofView;

    open spec fn view(&self) -> ProofView {
        ProofView {
            amount: self.amount,
            secret: self.secret@,
            signature: self.signature@,
            keyset_id: self.keyset_id@,
        }
    }
}

impl DeepView for Proof {
    type V = ProofView;

    open spec fn deep_view(&self) -> ProofView {
        self@
    }
}

/// The public keys of one keyset, each under its denomination, in the
/// order in which the mint listed them.
#[derive(Debug, Clone, PartialEq, Eq)]
pub struct KeySet {
    pub keys: Vec<(u64, String)>,
}

/// Whether no denomination occurs twice.
pub open spec fn distinct_denominations(keys: Seq<(u64, Seq<char>)>) -> bool {
    forall|i: int, j: int| 0 <= i < j < keys.len() ==> keys[i].0 != keys[j].0
}

impl View for KeySet {
    type V = Seq<(u64, Seq<char>)>;

    open spec fn view(&self) -> Seq<(u64, Seq<char>)> {
        self.keys.deep_view()
    }
}

impl DeepView for KeySet {
    type V = Seq<(u64, Seq<char>)>;

    open spec fn deep_view(&self) -> Seq<(u64, Seq<char>)> {
        self@
    }
}

impl KeySet {
    /// A keyset is well formed when no denomination occurs twice in it.
    pub open spec fn wf(&self) -> bool {
        distinct_denominations(self@)
    }
}

/// The identifiers of the keysets that a mint knows, in the mint's order.
#[derive(Debug, Clone, PartialEq, Eq)]
pub struct KeysetDirectory {
    pub keysets: Vec<String>,
}

impl View for KeysetDirectory {
    type V = Seq<Seq<char>>;

    open spec fn view(&self) -> Seq<Seq<char>> {
        self.keysets.deep_view()
    }
}

impl DeepView for KeysetDirectory {
    type V = Seq<Seq<char>>;

    open spec fn deep_view(&self) -> Seq<Seq<char>> {
        self@
    }
}

/// A payment request, and the hash under which the minted value is
/// claimed once it is paid.
#[derive(Debug, Clone, PartialEq, Eq)]
pub struct MintQuote {
    pub payment_request: String,
    pub hash: String,
}

/// What a [`MintQuote`] holds, with its strings and vectors taken as sequences.
pub ghost struct MintQuoteView {
    pub payment_request: Seq<char>,
    pub hash: Seq<char>,
}

impl View for MintQuote {
    type V = MintQuoteView;

    open spec fn view(&self) -> MintQuoteView {
        MintQuoteView { payment_request: self.payment_request@, hash: self.hash@ }
    }
}

impl DeepView for MintQuote {
    type V = MintQuoteView;

    open spec fn deep_view(&self) -> MintQuoteView {
        self@
    }
}

/// The signatures on a batch of blinded messages: the signature at each
/// position belongs to the message at that position.
#[derive(Debug, Clone, PartialEq, Eq)]
pub struct PostMintResponse {
    pub promises: Vec<BlindedSignature>,
}

impl View for PostMintResponse {
    type V = Seq<BlindedSignatureView>;

    open spec fn view(&self) -> Seq<BlindedSignatureView> {
        self.promises.deep_view()
    }
}

impl DeepView for PostMintResponse {
    type V = Seq<BlindedSignatureView>;

    open spec fn deep_view(&self) -> Seq<BlindedSignatureView> {
        self@
    }
}

/// The most that paying a payment request may cost in fees.
#[derive(Debug, Clone, Copy, PartialEq, Eq)]
pub struct FeeQuote {
    pub fee: u64,
}

impl View for FeeQuote {
    type V = u64;

    open spec fn view(&self) -> u64 {
        self.fee
    }
}

impl DeepView for FeeQuote {
    type V = u64;

    open spec fn deep_view(&self) -> u64 {
        self@
    }
}

/// What came of a melt: whether the payment request was paid, the
/// payment's preimage if the mint gave one, and the signatures on the
/// outputs that took the change, where the caller had sent outputs.
#[derive(Debug, Clone, PartialEq, Eq)]
pub struct MeltOutcome {
    pub paid: bool,
    pub preimage: Option<String>,
    pub change: Option<Vec<BlindedSignature>>,
}

/// What a [`MeltOutcome`] holds, with its strings and vectors taken as sequences.
pub ghost struct MeltOutcomeView {
    pub paid: bool,
    pub preimage: Option<Seq<char>>,
    pub change: Option<Seq<BlindedSignatureView>>,
}

impl View for MeltOutcome {
    type V = MeltOutcomeView;

    open spec fn view(&self) -> MeltOutcomeView {
        MeltOutcomeView {
            paid: self.paid,
            preimage: self.preimage.deep_view(),
            change: self.change.deep_view(),
        }
    }
}

impl DeepView for MeltOutcome {
    type V = MeltOutcomeView;

    open spec fn deep_view(&self) -> MeltOutcomeView {
        self@
    }
}

/// Proofs to be exchanged, and the blinded messages to be signed for them.
#[derive(Debug, Clone, PartialEq, Eq)]
pub struct SplitRequest {
    pub proofs: Vec<Proof>,
    pub outputs: Vec<BlindedMessage>,
}

/// What a [`SplitRequest`] holds, with its strings and vectors taken as sequences.
pub ghost struct SplitRequestView {
    pub proofs: Seq<ProofView>,
    pub outputs: Seq<BlindedMessageView>,
}

impl View for SplitRequest {
    type V = SplitRequestView;

    open spec fn view(&self) -> SplitRequestView {
        SplitRequestView { proofs: self.proofs.deep_view(), outputs: self.outputs.deep_view() }
    }
}

impl DeepView for SplitRequest {
    type V = SplitRequestView;

    open spec fn deep_view(&self) -> SplitRequestView {
        self@
    }
}

/// The signatures that a split gave: those on the outputs to keep, then
/// those on the outputs to send, each list in the order of its outputs.
#[derive(Debug, Clone, PartialEq, Eq)]
pub struct SplitOutcome {
    pub kept: Vec<BlindedSignature>,
    pub sent: Vec<BlindedSignature>,
}

/// What a [`SplitOutcome`] holds, with its strings and vectors taken as sequences.
pub ghost struct SplitOutcomeView {
    pub kept: Seq<BlindedSignatureView>,
    pub sent: Seq<BlindedSignatureView>,
}

impl View for SplitOutcome {
    type V = SplitOutcomeView;

    open spec fn view(&self) -> SplitOutcomeView {
        SplitOutcomeView { kept: self.kept.deep_view(), sent: self.sent.deep_view() }
    }
}

impl DeepView for SplitOutcome {
    type V = SplitOutcomeView;

    open spec fn deep_view(&self) -> SplitOutcomeView {
        self@
    }
}

/// For each proof that was asked about, in the order asked, whether it can
/// still be redeemed.
#[derive(Debug, Clone, PartialEq, Eq)]
pub struct SpendabilityReport {
    pub spendable: Vec<bool>,
}

impl View for SpendabilityReport {
    type V = Seq<bool>;

    open spec fn view(&self) -> Seq<bool> {
        self.spendable@
    }
}

impl DeepView for SpendabilityReport {
    type V = Seq<bool>;

    open spec fn deep_view(&self) -> Seq<bool> {
        self@
    }
}

/// What a mint says about itself.
#[derive(Debug, Clone, PartialEq, Eq)]
pub struct MintMetadata {
    pub name: Option<String>,
    /// The mint's public key.
    pub pubkey: Option<String>,
    pub version: Option<String>,
    pub description: Option<String>,
    pub description_long: Option<String>,
    /// Ways to reach the operator, each a list of texts such as a method
    /// and an address.
    pub contact: Option<Vec<Vec<String>>>,
    /// The operations that the mint supports.
    pub nuts: Vec<String>,
    /// The message of the day.
    pub motd: Option<String>,
}

/// What a [`MintMetadata`] holds, with its strings and vectors taken as sequences.
pub ghost struct MintMetadataView {
    pub name: Option<Seq<char>>,
    pub pubkey: Option<Seq<char>>,
    pub version: Option<Seq<char>>,
    pub description: Option<Seq<char>>,
    pub description_long: Option<Seq<char>>,
    pub contact: Option<Seq<Seq<Seq<char>>>>,
    pub nuts: Seq<Seq<char>>,
    pub motd: Option<Seq<char>>,
}

impl View for MintMetadata {
    type V = MintMetadataView;

    open spec fn view(&self) -> MintMetadataView {
        MintMetadataView {
            name: self.name.deep_view(),
            pubkey: self.pubkey.deep_view(),
            version: self.version.deep_view(),
            description: self.description.deep_view(),
            description_long: self.description_long.deep_view(),
            contact: self.contact.deep_view(),
            nuts: self.nuts.deep_view(),
            motd: self.motd.deep_view(),
        }
    }
}

impl DeepView for MintMetadata {
    type V = MintMetadataView;

    open spec fn deep_view(&self) -> MintMetadataView {
        self@
    }
}

} // verus!
