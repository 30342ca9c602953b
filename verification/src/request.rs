//! What the client sends: for each operation its method, its path segment
//! under the mint's address, and the body of its request.

use vstd::prelude::*;
use vstd::string::*;
use crate::address::{locate, located};
use crate::error::{Error, ErrorView};
use crate::json::{Json, JsonView};
use crate::payload::{BlindedMessage, BlindedMessageView, Proof, ProofView};

verus! {

/// The HTTP method of a request.
#[derive(Debug, Clone, Copy, PartialEq, Eq)]
pub enum Method {
    Get,
    Post,
}

/// The operations of the protocol.
#[derive(Debug, Clone, Copy, PartialEq, Eq)]
pub enum Operation {
    GetKeys,
    GetKeysets,
    RequestMint,
    PostMint,
    CheckFees,
    PostMelt,
    PostSplit,
    CheckSpendable,
    GetMintInfo,
}

impl Operation {
    /// The method with which the operation is requested.
    pub open spec fn spec_method(self) -> Method {
        match self {
            Operation::GetKeys => Method::Get,
            Operation::GetKeysets => Method::Get,
            Operation::RequestMint => Method::Get,
            Operation::PostMint => Method::Post,
            Operation::CheckFees => Method::Post,
            Operation::PostMelt => Method::Post,
            Operation::PostSplit => Method::Post,
            Operation::CheckSpendable => Method::Post,
            Operation::GetMintInfo => Method::Get,
        }
    }

    /// The path segment that the operation adds to the mint's address.
    pub open spec fn spec_segment(self) -> Seq<char> {
        match self {
            Operation::GetKeys => "keys"@,
            Operation::GetKeysets => "keysets"@,
            Operation::RequestMint => "mint"@,
            Operation::PostMint => "mint"@,
            Operation::CheckFees => "checkfees"@,
            Operation::PostMelt => "melt"@,
            Operation::PostSplit => "split"@,
            Operation::CheckSpendable => "check"@,
            Operation::GetMintInfo => "info"@,
        }
    }

    /// The method with which the operation is requested.
    #[verifier::when_used_as_spec(spec_method)]
    pub fn method(self) -> (method: Method)
        ensures
            method == self.spec_method(),
    {
        match self {
            Operation::GetKeys => Method::Get,
            Operation::GetKeysets => Method::Get,
            Operation::RequestMint => Method::Get,
            Operation::PostMint => Method::Post,
            Operation::CheckFees => Method::Post,
            Operation::PostMelt => Method::Post,
            Operation::PostSplit => Method::Post,
            Operation::CheckSpendable => Method::Post,
            Operation::GetMintInfo => Method::Get,
        }
    }

    /// The path segment that the operation adds to the mint's address.
    pub fn segment(self) -> (segment: &'static str)
        ensures
            segment@ == self.spec_segment(),
    {
        match self {
            Operation::GetKeys => "keys",
            Operation::GetKeysets => "keysets",
            Operation::RequestMint => "mint",
            Operation::PostMint => "mint",
            Operation::CheckFees => "checkfees",
            Operation::PostMelt => "melt",
            Operation::PostSplit => "split",
            Operation::CheckSpendable => "check",
            Operation::GetMintInfo => "info",
        }
    }
}

/// A request, ready for the transport.
#[derive(Debug, Clone, PartialEq, Eq)]
pub struct Request {
    pub method: Method,
    /// The address, with its query where the operation has one.
    pub url: String,
    /// The JSON value to send as the body, for an operation that has one.
    pub body: Option<Json>,
}

/// What a [`Request`] holds, with its strings and vectors taken as sequences.
pub ghost struct RequestView {
    pub method: Method,
    pub url: Seq<char>,
    pub body: Option<JsonView>,
}

impl View for Request {
    type V = RequestView;

    open spec fn view(&self) -> RequestView {
        RequestView { method: self.method, url: self.url@, body: self.body.deep_view() }
    }
}

impl DeepView for Request {
    type V = RequestView;

    open spec fn deep_view(&self) -> RequestView {
        self@
    }
}

/// The message of the error for a mint address under which no request can
/// be addressed.
pub open spec fn no_address() -> Seq<char> {
    "the mint address cannot take the request"@
}

/// The request for an operation at `url`, or the transport error where
/// there is no address for it.
pub open spec fn request_at(
    url: Option<Seq<char>>,
    operation: Operation,
    body: Option<JsonView>,
) -> Result<RequestView, ErrorView> {
    match url {
        Some(url) => Ok(RequestView { method: operation.spec_method(), url, body }),
        None => Err(ErrorView::Transport(no_address())),
    }
}

/// The request for an operation on the mint at `base`, or the transport
/// error where no address can be built for it.
pub open spec fn request_for(
    base: Seq<char>,
    operation: Operation,
    query: Option<(Seq<char>, Seq<char>)>,
    body: Option<JsonView>,
) -> Result<RequestView, ErrorView> {
    request_at(located(base, operation.spec_segment(), query), operation, body)
}

/// A [`Request`] or the error in its place, with strings and vectors taken
/// as sequences.
pub open spec fn request_view(request: Result<Request, Error>) -> Result<RequestView, ErrorView> {
    match request {
        Ok(request) => Ok(request@),
        Err(error) => Err(error@),
    }
}

/// The request for an operation once its address is known, or the
/// transport error where no address could be built.
pub fn addressed(url: Option<String>, operation: Operation, body: Option<Json>) -> (request:
    Result<Request, Error>)
    ensures
        request_view(request) == request_at(url.deep_view(), operation, body.deep_view()),
{
    match url {
        Some(url) => Ok(Request { method: operation.method(), url, body }),
        None => Err(
            Error::Transport(String::from_str("the mint address cannot take the request")),
        ),
    }
}

/// Puts a request together: the address from the mint's address, the
/// operation's segment and the query pair, then the request at it.
pub fn assemble(
    base: &str,
    operation: Operation,
    query: Option<(&str, &str)>,
    body: Option<Json>,
) -> (request: Result<Request, Error>)
    ensures
        request_view(request) == request_for(
            base@,
            operation,
            query.deep_view(),
            body.deep_view(),
        ),
{
    addressed(locate(base, operation.segment(), query), operation, body)
}

/// A blinded message as it is sent: an object with the amount `amount`
/// and the string `B_`.
pub open spec fn blinded_message_json(message: BlindedMessageView) -> JsonView {
    JsonView::Object(
        seq![
            ("amount"@, JsonView::Number(message.amount)),
            ("B_"@, JsonView::Text(message.blinded_secret)),
        ],
    )
}

/// A proof as it is sent: an object with the amount `amount` and the
/// strings `secret`, `C` and `id`.
pub open spec fn proof_json(proof: ProofView) -> JsonView {
    JsonView::Object(
        seq![
            ("amount"@, JsonView::Number(proof.amount)),
            ("secret"@, JsonView::Text(proof.secret)),
            ("C"@, JsonView::Text(proof.signature)),
            ("id"@, JsonView::Text(proof.keyset_id)),
        ],
    )
}

/// Blinded messages as they are sent: an array, in their order.
pub open spec fn blinded_messages_json(messages: Seq<BlindedMessageView>) -> JsonView {
    JsonView::Array(Seq::new(messages.len(), |i: int| blinded_message_json(messages[i])))
}

/// Proofs as they are sent: an array, in their order.
pub open spec fn proofs_json(proofs: Seq<ProofView>) -> JsonView {
    JsonView::Array(Seq::new(proofs.len(), |i: int| proof_json(proofs[i])))
}

/// The body of a mint: the blinded messages under `outputs`.
pub open spec fn mint_body(outputs: Seq<BlindedMessageView>) -> JsonView {
    JsonView::Object(seq![("outputs"@, blinded_messages_json(outputs))])
}

/// The body of a fee check: the payment request under `pr`.
pub open spec fn check_fees_body(payment_request: Seq<char>) -> JsonView {
    JsonView::Object(seq![("pr"@, JsonView::Text(payment_request))])
}

/// The body of a melt: the proofs under `proofs`, the payment request
/// under `pr` and, where there are any, the outputs for the change under
/// `outputs`.
pub open spec fn melt_body(
    proofs: Seq<ProofView>,
    payment_request: Seq<char>,
    outputs: Option<Seq<BlindedMessageView>>,
) -> JsonView {
    let members = seq![("proofs"@, proofs_json(proofs)), ("pr"@, JsonView::Text(payment_request))];
    match outputs {
        Some(outputs) => JsonView::Object(
            members.push(("outputs"@, blinded_messages_json(outputs))),
        ),
        None => JsonView::Object(members),
    }
}

/// The body of a split: the proofs under `proofs` and the blinded
/// messages under `outputs`.
pub open spec fn split_body(proofs: Seq<ProofView>, outputs: Seq<BlindedMessageView>) -> JsonView {
    JsonView::Object(
        seq![("proofs"@, proofs_json(proofs)), ("outputs"@, blinded_messages_json(outputs))],
    )
}

/// The body of a spendability check: the proofs under `proofs`.
pub open spec fn check_spendable_body(proofs: Seq<ProofView>) -> JsonView {
    JsonView::Object(seq![("proofs"@, proofs_json(proofs))])
}

/// One member of an object.
fn member(name: &str, value: Json) -> (member: (String, Json))
    ensures
        member.deep_view() == (name@, value@),
{
    (name.to_owned(), value)
}

/// Writes a blinded message.
pub fn write_blinded_message(message: &BlindedMessage) -> (json: Json)
    ensures
        json@ == blinded_message_json(message@),
{
    let mut members: Vec<(String, Json)> = Vec::new();
    members.push(member("amount", Json::Number(message.amount)));
    members.push(member("B_", Json::text(message.blinded_secret.as_str())));
    assert(members.deep_view() =~= blinded_message_json(message@)->Object_0);
    Json::object(members)
}

/// Writes a proof.
pub fn write_proof(proof: &Proof) -> (json: Json)
    ensures
        json@ == proof_json(proof@),
{
    let mut members: Vec<(String, Json)> = Vec::new();
    members.push(member("amount", Json::Number(proof.amount)));
    members.push(member("secret", Json::text(proof.secret.as_str())));
    members.push(member("C", Json::text(proof.signature.as_str())));
    members.push(member("id", Json::text(proof.keyset_id.as_str())));
    assert(members.deep_view() =~= proof_json(proof@)->Object_0);
    Json::object(members)
}

/// Writes blinded messages, in their order.
pub fn write_blinded_messages(messages: &Vec<BlindedMessage>) -> (json: Json)
    ensures
        json@ == blinded_messages_json(messages.deep_view()),
{
    let mut items: Vec<Json> = Vec::new();
    let mut i: usize = 0;
    while i < messages.len()
        invariant
            i <= messages.len(),
            items.len() == i,
            forall|k: int|
                0 <= k < i ==> (#[trigger] items[k])@ == blinded_message_json(messages[k]@),
        decreases messages.len() - i,
    {
        items.push(write_blinded_message(&messages[i]));
        i += 1;
    }
    assert(items.deep_view() =~= blinded_messages_json(messages.deep_view())->Array_0);
    Json::array(items)
}

/// Writes proofs, in their order.
pub fn write_proofs(proofs: &Vec<Proof>) -> (json: Json)
    ensures
        json@ == proofs_json(proofs.deep_view()),
{
    let mut items: Vec<Json> = Vec::new();
    let mut i: usize = 0;
    while i < proofs.len()
        invariant
            i <= proofs.len(),
            items.len() == i,
            forall|k: int| 0 <= k < i ==> (#[trigger] items[k])@ == proof_json(proofs[k]@),
        decreases proofs.len() - i,
    {
        items.push(write_proof(&proofs[i]));
        i += 1;
    }
    assert(items.deep_view() =~= proofs_json(proofs.deep_view())->Array_0);
    Json::array(items)
}

/// Writes the body of a mint.
pub fn write_mint_body(outputs: &Vec<BlindedMessage>) -> (json: Json)
    ensures
        json@ == mint_body(outputs.deep_view()),
{
    let mut members: Vec<(String, Json)> = Vec::new();
    members.push(member("outputs", write_blinded_messages(outputs)));
    assert(members.deep_view() =~= mint_body(outputs.deep_view())->Object_0);
    Json::object(members)
}

/// Writes the body of a fee check.
pub fn write_check_fees_body(payment_request: &str) -> (json: Json)
    ensures
        json@ == check_fees_body(payment_request@),
{
    let mut members: Vec<(String, Json)> = Vec::new();
    members.push(member("pr", Json::text(payment_request)));
    assert(members.deep_view() =~= check_fees_body(payment_request@)->Object_0);
    Json::object(members)
}

/// Writes the body of a melt.
pub fn write_melt_body(
    proofs: &Vec<Proof>,
    payment_request: &str,
    outputs: &Option<Vec<BlindedMessage>>,
) -> (json: Json)
    ensures
        json@ == melt_body(proofs.deep_view(), payment_request@, outputs.deep_view()),
{
    let mut members: Vec<(String, Json)> = Vec::new();
    members.push(member("proofs", write_proofs(proofs)));
    members.push(member("pr", Json::text(payment_request)));
    match outputs {
        Some(outputs) => {
            members.push(member("outputs", write_blinded_messages(outputs)));
        },
        None => {},
    }
    assert(members.deep_view() =~= melt_body(
        proofs.deep_view(),
        payment_request@,
        outputs.deep_view(),
    )->Object_0);
    Json::object(members)
}

/// Writes the body of a split.
pub fn write_split_body(proofs: &Vec<Proof>, outputs: &Vec<BlindedMessage>) -> (json: Json)
    ensures
        json@ == split_body(proofs.deep_view(), outputs.deep_view()),
{
    let mut members: Vec<(String, Json)> = Vec::new();
    members.push(member("proofs", write_proofs(proofs)));
    members.push(member("outputs", write_blinded_messages(outputs)));
    assert(members.deep_view() =~= split_body(proofs.deep_view(), outputs.deep_view())->Object_0);
    Json::object(members)
}

/// Writes the body of a spendability check.
pub fn write_check_spendable_body(proofs: &Vec<Proof>) -> (json: Json)
    ensures
        json@ == check_spendable_body(proofs.deep_view()),
{
    let mut members: Vec<(String, Json)> = Vec::new();
    members.push(member("proofs", write_proofs(proofs)));
    assert(members.deep_view() =~= check_spendable_body(proofs.deep_view())->Object_0);
    Json::object(members)
}

} // verus!
