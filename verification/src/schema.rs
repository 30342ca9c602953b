//! The shapes of the mint's answers: for each payload, which JSON values
//! stand for one, and which payload such a value stands for.
//!
//! A value matches a shape when it is an object that has every member the
//! shape requires, each of the type the shape gives it. Members that the
//! shape does not name are passed over. A member that may be missing counts
//! as missing when it is `null`.

use vstd::prelude::*;
use crate::json::{Json, JsonView};
use crate::key::{is_public_key, public_key_hex};
use crate::payload::{
    distinct_denominations, BlindedSignature, BlindedSignatureView, FeeQuote, KeySet,
    KeysetDirectory, MeltOutcome, MeltOutcomeView, MintMetadata, MintMetadataView, MintQuote,
    MintQuoteView, PostMintResponse, SpendabilityReport, SplitOutcome, SplitOutcomeView,
};
use crate::text::{amount_of_text, parse_amount};

verus! {

/// The items of an array, each read as `one` reads it; `None` where `one`
/// refuses an item.
pub open spec fn each<V>(items: Seq<JsonView>, one: spec_fn(JsonView) -> Option<V>) -> Option<
    Seq<V>,
> {
    if forall|i: int| 0 <= i < items.len() ==> (#[trigger] one(items[i])) is Some {
        Some(Seq::new(items.len(), |i: int| one(items[i]).unwrap()))
    } else {
        None
    }
}

/// A JSON array read as a list: each item as `one` reads it.
pub open spec fn list_of<V>(json: JsonView, one: spec_fn(JsonView) -> Option<V>) -> Option<
    Seq<V>,
> {
    match json.items() {
        Some(items) => each(items, one),
        None => None,
    }
}

/// A member that must be there, read as `one` reads it.
pub open spec fn required<V>(
    json: JsonView,
    name: Seq<char>,
    one: spec_fn(JsonView) -> Option<V>,
) -> Option<V> {
    match json.field(name) {
        Some(member) => one(member),
        None => None,
    }
}

/// A member that may be missing: `Some(None)` where it is missing or
/// `null`, `Some(Some(v))` where `one` reads it as `v`, `None` where `one`
/// refuses it.
pub open spec fn optional<V>(
    json: JsonView,
    name: Seq<char>,
    one: spec_fn(JsonView) -> Option<V>,
) -> Option<Option<V>> {
    match json.present(name) {
        None => Some(None),
        Some(member) => match one(member) {
            Some(value) => Some(Some(value)),
            None => None,
        },
    }
}

/// A JSON string.
pub open spec fn text_of(json: JsonView) -> Option<Seq<char>> {
    json.text()
}

/// A JSON number that is an unsigned integer of at most 64 bits.
pub open spec fn amount_of(json: JsonView) -> Option<u64> {
    json.number()
}

/// `true` or `false`.
pub open spec fn flag_of(json: JsonView) -> Option<bool> {
    json.boolean()
}

/// A JSON string that is a public key.
pub open spec fn public_key_of(json: JsonView) -> Option<Seq<char>> {
    match json.text() {
        Some(text) => if public_key_hex(text) {
            Some(text)
        } else {
            None
        },
        None => None,
    }
}

/// An array of strings.
pub open spec fn texts_of(json: JsonView) -> Option<Seq<Seq<char>>> {
    list_of(json, |item: JsonView| text_of(item))
}

/// An array of arrays of strings.
pub open spec fn text_lists_of(json: JsonView) -> Option<Seq<Seq<Seq<char>>>> {
    list_of(json, |item: JsonView| texts_of(item))
}

/// An array of `true` and `false`.
pub open spec fn flags_of(json: JsonView) -> Option<Seq<bool>> {
    list_of(json, |item: JsonView| flag_of(item))
}

/// A blind signature: an object with the string `id`, the amount `amount`
/// and the public key `C_`.
pub open spec fn signature_of(json: JsonView) -> Option<BlindedSignatureView> {
    match (
        required(json, "id"@, |member: JsonView| text_of(member)),
        required(json, "amount"@, |member: JsonView| amount_of(member)),
        required(json, "C_"@, |member: JsonView| public_key_of(member)),
    ) {
        (Some(keyset_id), Some(amount), Some(signature)) => Some(
            BlindedSignatureView { keyset_id, amount, signature },
        ),
        _ => None,
    }
}

/// An array of blind signatures, in the array's order.
pub open spec fn signatures_of(json: JsonView) -> Option<Seq<BlindedSignatureView>> {
    list_of(json, |item: JsonView| signature_of(item))
}

/// One member of a keyset: its name is the denomination written in
/// decimal, its value the public key.
pub open spec fn key_of(member: (Seq<char>, JsonView)) -> Option<(u64, Seq<char>)> {
    match (amount_of_text(member.0), public_key_of(member.1)) {
        (Some(denomination), Some(key)) => Some((denomination, key)),
        _ => None,
    }
}

/// The keys that the members of an object stand for, where each stands for
/// one.
pub open spec fn keys_of(members: Seq<(Seq<char>, JsonView)>) -> Option<Seq<(u64, Seq<char>)>> {
    if forall|i: int| 0 <= i < members.len() ==> (#[trigger] key_of(members[i])) is Some {
        Some(Seq::new(members.len(), |i: int| key_of(members[i]).unwrap()))
    } else {
        None
    }
}

/// A keyset: an object of which every member is a key, no two of them
/// under the same denomination. The keys keep the members' order.
pub open spec fn key_set_of(json: JsonView) -> Option<Seq<(u64, Seq<char>)>> {
    match json.members() {
        Some(members) => match keys_of(members) {
            Some(keys) => if distinct_denominations(keys) {
                Some(keys)
            } else {
                None
            },
            None => None,
        },
        None => None,
    }
}

/// A keyset directory: an object with the array of strings `keysets`.
pub open spec fn keyset_directory_of(json: JsonView) -> Option<Seq<Seq<char>>> {
    required(json, "keysets"@, |member: JsonView| texts_of(member))
}

/// A mint quote: an object with the strings `pr` and `hash`.
pub open spec fn mint_quote_of(json: JsonView) -> Option<MintQuoteView> {
    match (
        required(json, "pr"@, |member: JsonView| text_of(member)),
        required(json, "hash"@, |member: JsonView| text_of(member)),
    ) {
        (Some(payment_request), Some(hash)) => Some(MintQuoteView { payment_request, hash }),
        _ => None,
    }
}

/// The answer to a mint: an object with the array of blind signatures
/// `promises`.
pub open spec fn post_mint_of(json: JsonView) -> Option<Seq<BlindedSignatureView>> {
    required(json, "promises"@, |member: JsonView| signatures_of(member))
}

/// A fee quote: an object with the amount `fee`.
pub open spec fn fee_quote_of(json: JsonView) -> Option<u64> {
    required(json, "fee"@, |member: JsonView| amount_of(member))
}

/// The outcome of a melt: an object with the flag `paid` and, where they
/// are there, the string `preimage` and the array of blind signatures
/// `change`.
pub open spec fn melt_outcome_of(json: JsonView) -> Option<MeltOutcomeView> {
    match (
        required(json, "paid"@, |member: JsonView| flag_of(member)),
        optional(json, "preimage"@, |member: JsonView| text_of(member)),
        optional(json, "change"@, |member: JsonView| signatures_of(member)),
    ) {
        (Some(paid), Some(preimage), Some(change)) => Some(
            MeltOutcomeView { paid, preimage, change },
        ),
        _ => None,
    }
}

/// The outcome of a split: an object with the arrays of blind signatures
/// `fst`, on the outputs to keep, and `snd`, on the outputs to send.
pub open spec fn split_outcome_of(json: JsonView) -> Option<SplitOutcomeView> {
    match (
        required(json, "fst"@, |member: JsonView| signatures_of(member)),
        required(json, "snd"@, |member: JsonView| signatures_of(member)),
    ) {
        (Some(kept), Some(sent)) => Some(SplitOutcomeView { kept, sent }),
        _ => None,
    }
}

/// A spendability report: an object with the array of flags `spendable`.
pub open spec fn spendability_of(json: JsonView) -> Option<Seq<bool>> {
    required(json, "spendable"@, |member: JsonView| flags_of(member))
}

/// A mint's metadata: an object with the array of strings `nuts` and,
/// where they are there, the strings `name`, `version`, `description`,
/// `description_long` and `motd`, the public key `pubkey` and the array of
/// arrays of strings `contact`.
pub open spec fn mint_metadata_of(json: JsonView) -> Option<MintMetadataView> {
    match (
        optional(json, "name"@, |member: JsonView| text_of(member)),
        optional(json, "pubkey"@, |member: JsonView| public_key_of(member)),
        optional(json, "version"@, |member: JsonView| text_of(member)),
        optional(json, "description"@, |member: JsonView| text_of(member)),
    ) {
        (Some(name), Some(pubkey), Some(version), Some(description)) => match (
            optional(json, "description_long"@, |member: JsonView| text_of(member)),
            optional(json, "contact"@, |member: JsonView| text_lists_of(member)),
            required(json, "nuts"@, |member: JsonView| texts_of(member)),
            optional(json, "motd"@, |member: JsonView| text_of(member)),
        ) {
            (Some(description_long), Some(contact), Some(nuts), Some(motd)) => Some(
                MintMetadataView {
                    name,
                    pubkey,
                    version,
                    description,
                    description_long,
                    contact,
                    nuts,
                    motd,
                },
            ),
            _ => None,
        },
        _ => None,
    }
}

/// A mint's error: an object with the number `code`, an unsigned integer
/// of at most 64 bits, and the string `detail`. Gives the two.
pub open spec fn mint_failure_of(json: JsonView) -> Option<(u64, Seq<char>)> {
    match (
        required(json, "code"@, |member: JsonView| amount_of(member)),
        required(json, "detail"@, |member: JsonView| text_of(member)),
    ) {
        (Some(code), Some(detail)) => Some((code, detail)),
        _ => None,
    }
}

/// Reads each item of an array with `one`.
fn read_each<T: DeepView, F: Fn(&Json) -> Option<T>>(
    items: &Vec<Json>,
    one: F,
    Ghost(shape): Ghost<spec_fn(JsonView) -> Option<T::V>>,
) -> (read: Option<Vec<T>>)
    requires
        forall|json: &Json| call_requires(one, (json,)),
        forall|json: &Json, out: Option<T>|
            call_ensures(one, (json,), out) ==> out.deep_view() == shape(json@),
    ensures
        read.deep_view() == each(items.deep_view(), shape),
{
    let mut read: Vec<T> = Vec::new();
    let mut i: usize = 0;
    while i < items.len()
        invariant
            i <= items.len(),
            read.len() == i,
            forall|json: &Json| call_requires(one, (json,)),
            forall|json: &Json, out: Option<T>|
                call_ensures(one, (json,), out) ==> out.deep_view() == shape(json@),
            forall|k: int| 0 <= k < i ==> shape(items[k]@) == Some(#[trigger] read[k].deep_view()),
        decreases items.len() - i,
    {
        match one(&items[i]) {
            Some(item) => {
                read.push(item);
            },
            None => {
                assert(shape(items.deep_view()[i as int]) is None);
                return None;
            },
        }
        i += 1;
    }
    assert forall|k: int| 0 <= k < items.len() implies (#[trigger] shape(
        items.deep_view()[k],
    )) is Some by {
        assert(shape(items[k]@) == Some(read[k].deep_view()));
    }
    assert(read.deep_view() =~= each(items.deep_view(), shape).unwrap());
    Some(read)
}

/// Reads a member that must be there with `one`.
fn read_required<T: DeepView, F: Fn(&Json) -> Option<T>>(
    json: &Json,
    name: &str,
    one: F,
    Ghost(shape): Ghost<spec_fn(JsonView) -> Option<T::V>>,
) -> (read: Option<T>)
    requires
        forall|json: &Json| call_requires(one, (json,)),
        forall|json: &Json, out: Option<T>|
            call_ensures(one, (json,), out) ==> out.deep_view() == shape(json@),
    ensures
        read.deep_view() == required(json@, name@, shape),
{
    match json.field(name) {
        Some(member) => one(member),
        None => None,
    }
}

/// Reads a member that may be missing with `one`.
fn read_optional<T: DeepView, F: Fn(&Json) -> Option<T>>(
    json: &Json,
    name: &str,
    one: F,
    Ghost(shape): Ghost<spec_fn(JsonView) -> Option<T::V>>,
) -> (read: Option<Option<T>>)
    requires
        forall|json: &Json| call_requires(one, (json,)),
        forall|json: &Json, out: Option<T>|
            call_ensures(one, (json,), out) ==> out.deep_view() == shape(json@),
    ensures
        read.deep_view() == optional(json@, name@, shape),
{
    match json.present(name) {
        None => Some(None),
        Some(member) => match one(member) {
            Some(value) => Some(Some(value)),
            None => None,
        },
    }
}

/// Reads a string.
pub fn read_text(json: &Json) -> (text: Option<String>)
    ensures
        text.deep_view() == text_of(json@),
{
    match json.as_text() {
        Some(text) => Some(text.to_owned()),
        None => None,
    }
}

/// Reads an unsigned integer of at most 64 bits.
pub fn read_amount(json: &Json) -> (amount: Option<u64>)
    ensures
        amount == amount_of(json@),
{
    json.as_number()
}

/// Reads `true` or `false`.
pub fn read_flag(json: &Json) -> (flag: Option<bool>)
    ensures
        flag == flag_of(json@),
{
    json.as_bool()
}

/// Reads a public key.
pub fn read_public_key(json: &Json) -> (key: Option<String>)
    ensures
        key.deep_view() == public_key_of(json@),
{
    let text = json.as_text()?;
    if is_public_key(text) {
        Some(text.to_owned())
    } else {
        None
    }
}

/// Reads an array of strings.
pub fn read_texts(json: &Json) -> (texts: Option<Vec<String>>)
    ensures
        texts.deep_view() == texts_of(json@),
{
    let items = json.as_array()?;
    read_each(items, read_text, Ghost(|item: JsonView| text_of(item)))
}

/// Reads an array of arrays of strings.
pub fn read_text_lists(json: &Json) -> (lists: Option<Vec<Vec<String>>>)
    ensures
        lists.deep_view() == text_lists_of(json@),
{
    let items = json.as_array()?;
    read_each(items, read_texts, Ghost(|item: JsonView| texts_of(item)))
}

/// Reads an array of `true` and `false`.
pub fn read_flags(json: &Json) -> (flags: Option<Vec<bool>>)
    ensures
        flags.deep_view() == flags_of(json@),
{
    let items = json.as_array()?;
    read_each(items, read_flag, Ghost(|item: JsonView| flag_of(item)))
}

/// Reads a blind signature.
pub fn read_signature(json: &Json) -> (signature: Option<BlindedSignature>)
    ensures
        signature.deep_view() == signature_of(json@),
{
    let keyset_id = read_required(
        json,
        "id",
        read_text,
        Ghost(|member: JsonView| text_of(member)),
    )?;
    let amount = read_required(
        json,
        "amount",
        read_amount,
        Ghost(|member: JsonView| amount_of(member)),
    )?;
    let signature = read_required(
        json,
        "C_",
        read_public_key,
        Ghost(|member: JsonView| public_key_of(member)),
    )?;
    Some(BlindedSignature { keyset_id, amount, signature })
}

/// Reads an array of blind signatures.
pub fn read_signatures(json: &Json) -> (signatures: Option<Vec<BlindedSignature>>)
    ensures
        signatures.deep_view() == signatures_of(json@),
{
    let items = json.as_array()?;
    read_each(items, read_signature, Ghost(|item: JsonView| signature_of(item)))
}

/// Reads a keyset.
pub fn read_key_set(json: &Json) -> (keys: Option<KeySet>)
    ensures
        keys.deep_view() == key_set_of(json@),
        keys matches Some(set) ==> set.wf(),
{
    let members = json.as_object()?;
    let mut keys: Vec<(u64, String)> = Vec::new();
    let mut i: usize = 0;
    while i < members.len()
        invariant
            i <= members.len(),
            keys.len() == i,
            json@.members() == Some(members.deep_view()),
            forall|k: int|
                0 <= k < i ==> key_of(members.deep_view()[k]) == Some(
                    #[trigger] keys.deep_view()[k],
                ),
            distinct_denominations(keys.deep_view()),
        decreases members.len() - i,
    {
        let ghost before = keys.deep_view();
        let ghost member = members.deep_view()[i as int];
        let denomination = parse_amount(members[i].0.as_str())?;
        let key = read_public_key(&members[i].1)?;
        let mut j: usize = 0;
        while j < i
            invariant
                j <= i,
                i < members.len(),
                keys.len() == i,
                json@.members() == Some(members.deep_view()),
                keys.deep_view() == before,
                key_of(member) is Some,
                key_of(member).unwrap().0 == denomination,
                member == members.deep_view()[i as int],
                forall|k: int|
                    0 <= k < i ==> key_of(members.deep_view()[k]) == Some(
                        #[trigger] keys.deep_view()[k],
                    ),
                forall|k: int| 0 <= k < j ==> (#[trigger] keys.deep_view()[k]).0 != denomination,
            decreases i - j,
        {
            if keys[j].0 == denomination {
                proof {
                    let all = keys_of(members.deep_view());
                    let earlier = members.deep_view()[j as int];
                    if all is Some {
                        assert(all.unwrap()[j as int] == key_of(earlier).unwrap());
                        assert(all.unwrap()[i as int] == key_of(member).unwrap());
                        assert(keys.deep_view()[j as int].0 == keys[j as int].0);
                    }
                }
                return None;
            }
            j += 1;
        }
        keys.push((denomination, key));
        proof {
            let after = keys.deep_view();
            assert forall|k: int| 0 <= k < i implies #[trigger] after[k] == before[k] by {}
        }
        i += 1;
    }
    proof {
        let all = members.deep_view();
        assert forall|k: int| 0 <= k < all.len() implies (#[trigger] key_of(all[k])) is Some by {
            assert(key_of(all[k]) == Some(keys.deep_view()[k]));
        }
        assert(keys.deep_view() =~= keys_of(all).unwrap());
    }
    Some(KeySet { keys })
}

/// Reads a keyset directory.
pub fn read_keyset_directory(json: &Json) -> (directory: Option<KeysetDirectory>)
    ensures
        directory.deep_view() == keyset_directory_of(json@),
{
    let keysets = read_required(
        json,
        "keysets",
        read_texts,
        Ghost(|member: JsonView| texts_of(member)),
    )?;
    Some(KeysetDirectory { keysets })
}

/// Reads a mint quote.
pub fn read_mint_quote(json: &Json) -> (quote: Option<MintQuote>)
    ensures
        quote.deep_view() == mint_quote_of(json@),
{
    let payment_request = read_required(
        json,
        "pr",
        read_text,
        Ghost(|member: JsonView| text_of(member)),
    )?;
    let hash = read_required(json, "hash", read_text, Ghost(|member: JsonView| text_of(member)))?;
    Some(MintQuote { payment_request, hash })
}

/// Reads the answer to a mint.
pub fn read_post_mint(json: &Json) -> (response: Option<PostMintResponse>)
    ensures
        response.deep_view() == post_mint_of(json@),
{
    let promises = read_required(
        json,
        "promises",
        read_signatures,
        Ghost(|member: JsonView| signatures_of(member)),
    )?;
    Some(PostMintResponse { promises })
}

/// Reads a fee quote.
pub fn read_fee_quote(json: &Json) -> (quote: Option<FeeQuote>)
    ensures
        quote.deep_view() == fee_quote_of(json@),
{
    let fee = read_required(json, "fee", read_amount, Ghost(|member: JsonView| amount_of(member)))?;
    Some(FeeQuote { fee })
}

/// Reads the outcome of a melt.
pub fn read_melt_outcome(json: &Json) -> (outcome: Option<MeltOutcome>)
    ensures
        outcome.deep_view() == melt_outcome_of(json@),
{
    let paid = read_required(json, "paid", read_flag, Ghost(|member: JsonView| flag_of(member)))?;
    let preimage = read_optional(
        json,
        "preimage",
        read_text,
        Ghost(|member: JsonView| text_of(member)),
    )?;
    let change = read_optional(
        json,
        "change",
        read_signatures,
        Ghost(|member: JsonView| signatures_of(member)),
    )?;
    Some(MeltOutcome { paid, preimage, change })
}

/// Reads the outcome of a split.
pub fn read_split_outcome(json: &Json) -> (outcome: Option<SplitOutcome>)
    ensures
        outcome.deep_view() == split_outcome_of(json@),
{
    let kept = read_required(
        json,
        "fst",
        read_signatures,
        Ghost(|member: JsonView| signatures_of(member)),
    )?;
    let sent = read_required(
        json,
        "snd",
        read_signatures,
        Ghost(|member: JsonView| signatures_of(member)),
    )?;
    Some(SplitOutcome { kept, sent })
}

/// Reads a spendability report.
pub fn read_spendability(json: &Json) -> (report: Option<SpendabilityReport>)
    ensures
        report.deep_view() == spendability_of(json@),
{
    let spendable = read_required(
        json,
        "spendable",
        read_flags,
        Ghost(|member: JsonView| flags_of(member)),
    )?;
    Some(SpendabilityReport { spendable })
}

/// Reads a mint's metadata.
pub fn read_mint_metadata(json: &Json) -> (metadata: Option<MintMetadata>)
    ensures
        metadata.deep_view() == mint_metadata_of(json@),
{
    let name = read_optional(json, "name", read_text, Ghost(|member: JsonView| text_of(member)))?;
    let pubkey = read_optional(
        json,
        "pubkey",
        read_public_key,
        Ghost(|member: JsonView| public_key_of(member)),
    )?;
    let version = read_optional(
        json,
        "version",
        read_text,
        Ghost(|member: JsonView| text_of(member)),
    )?;
    let description = read_optional(
        json,
        "description",
        read_text,
        Ghost(|member: JsonView| text_of(member)),
    )?;
    let description_long = read_optional(
        json,
        "description_long",
        read_text,
        Ghost(|member: JsonView| text_of(member)),
    )?;
    let contact = read_optional(
        json,
        "contact",
        read_text_lists,
        Ghost(|member: JsonView| text_lists_of(member)),
    )?;
    let nuts = read_required(json, "nuts", read_texts, Ghost(|member: JsonView| texts_of(member)))?;
    let motd = read_optional(json, "motd", read_text, Ghost(|member: JsonView| text_of(member)))?;
    Some(
        MintMetadata {
            name,
            pubkey,
            version,
            description,
            description_long,
            contact,
            nuts,
            motd,
        },
    )
}

/// Reads a mint's error: its code and its detail.
pub fn read_mint_failure(json: &Json) -> (failure: Option<(u64, String)>)
    ensures
        failure.deep_view() == mint_failure_of(json@),
{
    let code = read_required(
        json,
        "code",
        read_amount,
        Ghost(|member: JsonView| amount_of(member)),
    )?;
    let detail = read_required(
        json,
        "detail",
        read_text,
        Ghost(|member: JsonView| text_of(member)),
    )?;
    Some((code, detail))
}

} // verus!
