//! The client: for each operation of the protocol, the request to send and
//! the reading of the reply. Sending is the caller's part: the client holds
//! no state and no connection, and every call stands alone.

use vstd::prelude::*;
use crate::error::Error;
use crate::json::JsonView;
use crate::payload::{
    BlindedMessage, BlindedMessageView, BlindedMessages, BlindedSignatureView, FeeQuote, KeySet,
    KeysetDirectory, MeltOutcome, MintMetadata, MintQuote, PostMintResponse, Proof, ProofView,
    SpendabilityReport, SplitOutcome, SplitOutcomeView, SplitRequest,
};
use crate::protocol::{answered, outcome_view, reply_view, respond, Reply};
use crate::request::{
    assemble, blinded_message_json, check_fees_body, check_spendable_body, melt_body, mint_body,
    proof_json, request_for, request_view, split_body, write_check_fees_body,
    write_check_spendable_body, write_melt_body, write_mint_body, write_split_body, Operation,
    Request,
};
use crate::schema::{
    fee_quote_of, key_set_of, keyset_directory_of, melt_outcome_of, mint_metadata_of,
    mint_quote_of, post_mint_of, read_fee_quote, read_key_set, read_keyset_directory,
    read_melt_outcome, read_mint_metadata, read_mint_quote, read_post_mint, read_spendability,
    read_split_outcome, signature_of, spendability_of, split_outcome_of,
};
use crate::text::{amount_text, decimal};

verus! {

/// A client of a mint over HTTP.
#[derive(Debug, Clone)]
pub struct HttpClient {}

impl HttpClient {
    /// A client.
    pub fn new() -> (client: HttpClient)
        ensures
            client == (HttpClient {  }),
    {
        HttpClient {  }
    }

    /// The request for a mint's keys: `GET keys`.
    pub fn get_mint_keys_request(&self, mint_url: &str) -> (request: Result<Request, Error>)
        ensures
            request_view(request) == request_for(mint_url@, Operation::GetKeys, None, None),
    {
        assemble(mint_url, Operation::GetKeys, None, None)
    }

    /// Reads the reply to a request for a mint's keys.
    pub fn get_mint_keys_response(&self, reply: Reply) -> (outcome: Result<KeySet, Error>)
        ensures
            outcome_view(outcome) == answered(
                reply_view(reply),
                |json: JsonView| key_set_of(json),
            ),
            outcome matches Ok(keys) ==> keys.wf(),
    {
        respond(reply, read_key_set)
    }

    /// The request for a mint's keysets: `GET keysets`.
    pub fn get_mint_keysets_request(&self, mint_url: &str) -> (request: Result<Request, Error>)
        ensures
            request_view(request) == request_for(mint_url@, Operation::GetKeysets, None, None),
    {
        assemble(mint_url, Operation::GetKeysets, None, None)
    }

    /// Reads the reply to a request for a mint's keysets.
    pub fn get_mint_keysets_response(&self, reply: Reply) -> (outcome: Result<
        KeysetDirectory,
        Error,
    >)
        ensures
            outcome_view(outcome) == answered(
                reply_view(reply),
                |json: JsonView| keyset_directory_of(json),
            ),
    {
        respond(reply, read_keyset_directory)
    }

    /// The request for a payment request over `amount`: `GET mint` with
    /// the amount, in decimal, as the query's `amount`.
    pub fn get_request_mint_request(&self, mint_url: &str, amount: u64) -> (request: Result<
        Request,
        Error,
    >)
        ensures
            request_view(request) == request_for(
                mint_url@,
                Operation::RequestMint,
                Some(("amount"@, decimal(amount as nat))),
                None,
            ),
    {
        let amount = amount_text(amount);
        assemble(mint_url, Operation::RequestMint, Some(("amount", amount.as_str())), None)
    }

    /// Reads the reply to a request for a payment request.
    pub fn get_request_mint_response(&self, reply: Reply) -> (outcome: Result<MintQuote, Error>)
        ensures
            outcome_view(outcome) == answered(
                reply_view(reply),
                |json: JsonView| mint_quote_of(json),
            ),
    {
        respond(reply, read_mint_quote)
    }

    /// The request to mint: `POST mint` with `hash` as the query's `hash`
    /// and the batch's blinded messages as the body.
    pub fn post_mint_request(
        &self,
        mint_url: &str,
        blinded_messages: BlindedMessages,
        hash: &str,
    ) -> (request: Result<Request, Error>)
        ensures
            request_view(request) == request_for(
                mint_url@,
                Operation::PostMint,
                Some(("hash"@, hash@)),
                Some(mint_body(blinded_messages@.blinded_messages)),
            ),
    {
        let body = write_mint_body(&blinded_messages.blinded_messages);
        assemble(mint_url, Operation::PostMint, Some(("hash", hash)), Some(body))
    }

    /// Reads the reply to a request to mint.
    pub fn post_mint_response(&self, reply: Reply) -> (outcome: Result<PostMintResponse, Error>)
        ensures
            outcome_view(outcome) == answered(
                reply_view(reply),
                |json: JsonView| post_mint_of(json),
            ),
    {
        respond(reply, read_post_mint)
    }

    /// The request for the fee of paying `payment_request`: `POST
    /// checkfees` with the payment request as the body.
    pub fn post_check_fees_request(&self, mint_url: &str, payment_request: &str) -> (request:
        Result<Request, Error>)
        ensures
            request_view(request) == request_for(
                mint_url@,
                Operation::CheckFees,
                None,
                Some(check_fees_body(payment_request@)),
            ),
    {
        let body = write_check_fees_body(payment_request);
        assemble(mint_url, Operation::CheckFees, None, Some(body))
    }

    /// Reads the reply to a request for a fee.
    pub fn post_check_fees_response(&self, reply: Reply) -> (outcome: Result<FeeQuote, Error>)
        ensures
            outcome_view(outcome) == answered(
                reply_view(reply),
                |json: JsonView| fee_quote_of(json),
            ),
    {
        respond(reply, read_fee_quote)
    }

    /// The request to melt: `POST melt` with the proofs, the payment
    /// request and, where the caller gives some, the outputs for the change
    /// as the body.
    pub fn post_melt_request(
        &self,
        mint_url: &str,
        proofs: Vec<Proof>,
        payment_request: &str,
        outputs: Option<Vec<BlindedMessage>>,
    ) -> (request: Result<Request, Error>)
        ensures
            request_view(request) == request_for(
                mint_url@,
                Operation::PostMelt,
                None,
                Some(melt_body(proofs.deep_view(), payment_request@, outputs.deep_view())),
            ),
    {
        let body = write_melt_body(&proofs, payment_request, &outputs);
        assemble(mint_url, Operation::PostMelt, None, Some(body))
    }

    /// Reads the reply to a request to melt.
    pub fn post_melt_response(&self, reply: Reply) -> (outcome: Result<MeltOutcome, Error>)
        ensures
            outcome_view(outcome) == answered(
                reply_view(reply),
                |json: JsonView| melt_outcome_of(json),
            ),
    {
        respond(reply, read_melt_outcome)
    }

    /// The request to split: `POST split` with the proofs and the blinded
    /// messages as the body.
    pub fn post_split_request(&self, mint_url: &str, split_request: SplitRequest) -> (request:
        Result<Request, Error>)
        ensures
            request_view(request) == request_for(
                mint_url@,
                Operation::PostSplit,
                None,
                Some(split_body(split_request@.proofs, split_request@.outputs)),
            ),
    {
        let body = write_split_body(&split_request.proofs, &split_request.outputs);
        assemble(mint_url, Operation::PostSplit, None, Some(body))
    }

    /// Reads the reply to a request to split.
    pub fn post_split_response(&self, reply: Reply) -> (outcome: Result<SplitOutcome, Error>)
        ensures
            outcome_view(outcome) == answered(
                reply_view(reply),
                |json: JsonView| split_outcome_of(json),
            ),
    {
        respond(reply, read_split_outcome)
    }

    /// The request to check whether proofs can still be redeemed: `POST
    /// check` with the proofs as the body.
    pub fn post_check_spendable_request(&self, mint_url: &str, proofs: Vec<Proof>) -> (request:
        Result<Request, Error>)
        ensures
            request_view(request) == request_for(
                mint_url@,
                Operation::CheckSpendable,
                None,
                Some(check_spendable_body(proofs.deep_view())),
            ),
    {
        let body = write_check_spendable_body(&proofs);
        assemble(mint_url, Operation::CheckSpendable, None, Some(body))
    }

    /// Reads the reply to a spendability check.
    pub fn post_check_spendable_response(&self, reply: Reply) -> (outcome: Result<
        SpendabilityReport,
        Error,
    >)
        ensures
            outcome_view(outcome) == answered(
                reply_view(reply),
                |json: JsonView| spendability_of(json),
            ),
    {
        respond(reply, read_spendability)
    }

    /// The request for what a mint says about itself: `GET info`.
    pub fn get_mint_info_request(&self, mint_url: &str) -> (request: Result<Request, Error>)
        ensures
            request_view(request) == request_for(mint_url@, Operation::GetMintInfo, None, None),
    {
        assemble(mint_url, Operation::GetMintInfo, None, None)
    }

    /// Reads the reply to a request for a mint's metadata.
    pub fn get_mint_info_response(&self, reply: Reply) -> (outcome: Result<MintMetadata, Error>)
        ensures
            outcome_view(outcome) == answered(
                reply_view(reply),
                |json: JsonView| mint_metadata_of(json),
            ),
    {
        respond(reply, read_mint_metadata)
    }
}

/// The blinded messages of a mint's body stand in the order in which the
/// caller gave them, and the signatures read from the answer stand in the
/// order in which the mint gave them. So where the mint answers with one
/// item for each message, the signature at each position is the one that
/// the mint put at the position of that message.
pub proof fn lemma_mint_signatures_keep_positions(
    outputs: Seq<BlindedMessageView>,
    answer: JsonView,
    promises: Seq<JsonView>,
)
    requires
        answer.field("promises"@) == Some(JsonView::Array(promises)),
        post_mint_of(answer) is Some,
        promises.len() == outputs.len(),
    ensures
        mint_body(outputs).field("outputs"@) matches Some(JsonView::Array(sent)) && sent.len()
            == outputs.len() && forall|i: int|
            0 <= i < outputs.len() ==> #[trigger] sent[i] == blinded_message_json(outputs[i]),
        post_mint_of(answer).unwrap().len() == outputs.len(),
        forall|i: int|
            0 <= i < outputs.len() ==> signature_of(promises[i]) == Some(
                #[trigger] post_mint_of(answer).unwrap()[i],
            ),
{
    let members = mint_body(outputs)->Object_0;
    assert(members.last().0 == "outputs"@);
}

/// The proofs of a spendability check stand in the body in the order in
/// which the caller gave them, and the flags read from the answer stand in
/// the order in which the mint gave them. So where the mint answers with
/// one flag for each proof, the flag at each position is the one that the
/// mint put at the position of that proof.
pub proof fn lemma_spendability_keeps_positions(
    proofs: Seq<ProofView>,
    answer: JsonView,
    flags: Seq<JsonView>,
)
    requires
        answer.field("spendable"@) == Some(JsonView::Array(flags)),
        spendability_of(answer) is Some,
        flags.len() == proofs.len(),
    ensures
        check_spendable_body(proofs).field("proofs"@) matches Some(JsonView::Array(asked))
            && asked.len() == proofs.len() && forall|i: int|
            0 <= i < proofs.len() ==> #[trigger] asked[i] == proof_json(proofs[i]),
        spendability_of(answer).unwrap().len() == proofs.len(),
        forall|i: int|
            0 <= i < proofs.len() ==> flags[i] == JsonView::Bool(
                #[trigger] spendability_of(answer).unwrap()[i],
            ),
{
    let members = check_spendable_body(proofs)->Object_0;
    assert(members.last().0 == "proofs"@);
}

/// All signatures of a split: those to keep, then those to send.
pub open spec fn split_signatures(outcome: SplitOutcomeView) -> Seq<BlindedSignatureView> {
    outcome.kept + outcome.sent
}

/// The blinded messages of a split's body stand in the order in which the
/// caller gave them, and the signatures read from the answer stand in the
/// order in which the mint gave them: those to keep first, then those to
/// send. So where the two lists together have one item for each message,
/// the signature at each position is the one that the mint put at the
/// position of that message.
pub proof fn lemma_split_signatures_keep_positions(
    proofs: Seq<ProofView>,
    outputs: Seq<BlindedMessageView>,
    answer: JsonView,
    kept: Seq<JsonView>,
    sent: Seq<JsonView>,
)
    requires
        answer.field("fst"@) == Some(JsonView::Array(kept)),
        answer.field("snd"@) == Some(JsonView::Array(sent)),
        split_outcome_of(answer) is Some,
        kept.len() + sent.len() == outputs.len(),
    ensures
        split_body(proofs, outputs).field("outputs"@) matches Some(JsonView::Array(asked))
            && asked.len() == outputs.len() && forall|i: int|
            0 <= i < outputs.len() ==> #[trigger] asked[i] == blinded_message_json(outputs[i]),
        split_signatures(split_outcome_of(answer).unwrap()).len() == outputs.len(),
        forall|i: int|
            0 <= i < outputs.len() ==> signature_of((kept + sent)[i]) == Some(
                #[trigger] split_signatures(split_outcome_of(answer).unwrap())[i],
            ),
{
    let members = split_body(proofs, outputs)->Object_0;
    assert(members.last().0 == "outputs"@);
}

} // verus!
