//! Payments of a monetary account.
use vstd::prelude::*;
use crate::common::BunqyyError;
use crate::domains::monetary_account::{amount_matches, is_amount, read_amount, Amount, MonetaryAccountId};
use crate::http::{listing_error, listing_failure, read_text_field, read_u64_field, text_field, u64_field};
use crate::json::{
    json_as_list, json_as_text, json_field, json_is_null, json_member, json_model, json_parse,
    parse_json, JsonModel,
};

verus! {

/// The id of a payment.
#[derive(Clone, Copy, Debug, PartialEq, Eq, Structural)]
pub struct PaymentId(pub u64);

/// One side of a payment: an account as the provider labels it.
#[derive(Clone, Debug)]
pub struct LabelMonetaryAccount {
    pub iban: Option<String>,
    pub display_name: String,
    pub country: String,
}

/// A payment, as the provider lists it.
#[derive(Clone, Debug)]
pub struct Payment {
    pub id: PaymentId,
    pub created: String,
    pub monetary_account_id: MonetaryAccountId,
    pub amount: Amount,
    pub alias: LabelMonetaryAccount,
    pub counterparty_alias: LabelMonetaryAccount,
    pub description: String,
    pub payment_type: String,
    pub sub_type: String,
    pub merchant_reference: Option<String>,
    pub balance_after_mutation: Amount,
}

/// An optional text under `key` in `m`: absent or null is none; anything
/// but text is no value at all.
pub open spec fn optional_text_field(m: JsonModel, key: Seq<char>) -> Option<Option<Seq<char>>> {
    match json_field(m, key) {
        None => Some(None),
        Some(JsonModel::Null) => Some(None),
        Some(JsonModel::Text(s)) => Some(Some(s)),
        _ => None,
    }
}

pub open spec fn optional_text_view(o: Option<String>) -> Option<Seq<char>> {
    match o {
        Some(s) => Some(s@),
        None => None,
    }
}

fn read_optional_text_field(v: &serde_json::Value, key: &str) -> (r: Option<Option<String>>)
    ensures
        r matches Some(o) ==> optional_text_field(json_model(*v), key@) == Some(optional_text_view(o)),
        r is None <==> optional_text_field(json_model(*v), key@) is None,
{
    match json_member(v, key) {
        None => Some(None),
        Some(x) => if json_is_null(x) {
            Some(None)
        } else {
            match json_as_text(x) {
                Some(s) => Some(Some(s.to_owned())),
                None => None,
            }
        },
    }
}

/// `l` is the label that `m` describes.
pub open spec fn label_matches(l: LabelMonetaryAccount, m: JsonModel) -> bool {
    &&& optional_text_field(m, "iban"@) == Some(optional_text_view(l.iban))
    &&& text_field(m, "display_name"@) == Some(l.display_name@)
    &&& text_field(m, "country"@) == Some(l.country@)
}

pub open spec fn is_label(m: JsonModel) -> bool {
    &&& optional_text_field(m, "iban"@) is Some
    &&& text_field(m, "display_name"@) is Some
    &&& text_field(m, "country"@) is Some
}

fn read_label(v: &serde_json::Value) -> (r: Option<LabelMonetaryAccount>)
    ensures
        r matches Some(l) ==> label_matches(l, json_model(*v)),
        r is None <==> !is_label(json_model(*v)),
{
    match (
        read_optional_text_field(v, "iban"),
        read_text_field(v, "display_name"),
        read_text_field(v, "country"),
    ) {
        (Some(iban), Some(display_name), Some(country)) => Some(
            LabelMonetaryAccount { iban, display_name, country },
        ),
        _ => None,
    }
}

/// `p` is the payment that the body `m` of a `Payment` entry describes.
pub open spec fn payment_body_matches(p: Payment, m: JsonModel) -> bool {
    &&& u64_field(m, "id"@) == Some(p.id.0)
    &&& text_field(m, "created"@) == Some(p.created@)
    &&& u64_field(m, "monetary_account_id"@) == Some(p.monetary_account_id.0)
    &&& json_field(m, "amount"@) matches Some(a) && amount_matches(p.amount, a)
    &&& json_field(m, "alias"@) matches Some(a) && label_matches(p.alias, a)
    &&& json_field(m, "counterparty_alias"@) matches Some(a) && label_matches(p.counterparty_alias, a)
    &&& text_field(m, "description"@) == Some(p.description@)
    &&& text_field(m, "type"@) == Some(p.payment_type@)
    &&& text_field(m, "sub_type"@) == Some(p.sub_type@)
    &&& optional_text_field(m, "merchant_reference"@) == Some(optional_text_view(p.merchant_reference))
    &&& json_field(m, "balance_after_mutation"@) matches Some(a) && amount_matches(p.balance_after_mutation, a)
}

pub open spec fn is_payment_body(m: JsonModel) -> bool {
    &&& u64_field(m, "id"@) is Some
    &&& text_field(m, "created"@) is Some
    &&& u64_field(m, "monetary_account_id"@) is Some
    &&& json_field(m, "amount"@) matches Some(a) && is_amount(a)
    &&& json_field(m, "alias"@) matches Some(a) && is_label(a)
    &&& json_field(m, "counterparty_alias"@) matches Some(a) && is_label(a)
    &&& text_field(m, "description"@) is Some
    &&& text_field(m, "type"@) is Some
    &&& text_field(m, "sub_type"@) is Some
    &&& optional_text_field(m, "merchant_reference"@) is Some
    &&& json_field(m, "balance_after_mutation"@) matches Some(a) && is_amount(a)
}

/// `p` is the payment that the entry `m` of a listing describes.
pub open spec fn payment_matches(p: Payment, m: JsonModel) -> bool {
    json_field(m, "Payment"@) matches Some(b) && payment_body_matches(p, b)
}

pub open spec fn is_payment(m: JsonModel) -> bool {
    json_field(m, "Payment"@) matches Some(b) && is_payment_body(b)
}

fn read_amount_field(v: &serde_json::Value, key: &str) -> (r: Option<Amount>)
    ensures
        r matches Some(a) ==> (json_field(json_model(*v), key@) matches Some(x) && amount_matches(a, x)),
        r is None <==> !(json_field(json_model(*v), key@) matches Some(x) && is_amount(x)),
{
    match json_member(v, key) {
        Some(x) => read_amount(x),
        None => None,
    }
}

fn read_label_field(v: &serde_json::Value, key: &str) -> (r: Option<LabelMonetaryAccount>)
    ensures
        r matches Some(l) ==> (json_field(json_model(*v), key@) matches Some(x) && label_matches(l, x)),
        r is None <==> !(json_field(json_model(*v), key@) matches Some(x) && is_label(x)),
{
    match json_member(v, key) {
        Some(x) => read_label(x),
        None => None,
    }
}

/// Decodes one entry of a payment listing.
pub fn decode_payment(v: &serde_json::Value) -> (r: Option<Payment>)
    ensures
        r matches Some(p) ==> payment_matches(p, json_model(*v)),
        r is None <==> !is_payment(json_model(*v)),
{
    let b = json_member(v, "Payment")?;
    let id = read_u64_field(b, "id");
    let created = read_text_field(b, "created");
    let monetary_account_id = read_u64_field(b, "monetary_account_id");
    let amount = read_amount_field(b, "amount");
    let alias = read_label_field(b, "alias");
    let counterparty_alias = read_label_field(b, "counterparty_alias");
    let description = read_text_field(b, "description");
    let payment_type = read_text_field(b, "type");
    let sub_type = read_text_field(b, "sub_type");
    let merchant_reference = read_optional_text_field(b, "merchant_reference");
    let balance_after_mutation = read_amount_field(b, "balance_after_mutation");
    match (id, created, monetary_account_id, amount, alias, counterparty_alias) {
        (Some(id), Some(created), Some(monetary_account_id), Some(amount), Some(alias), Some(counterparty_alias)) => {
            match (description, payment_type, sub_type, merchant_reference, balance_after_mutation) {
                (Some(description), Some(payment_type), Some(sub_type), Some(merchant_reference), Some(balance_after_mutation)) => {
                    Some(Payment {
                        id: PaymentId(id),
                        created,
                        monetary_account_id: MonetaryAccountId(monetary_account_id),
                        amount,
                        alias,
                        counterparty_alias,
                        description,
                        payment_type,
                        sub_type,
                        merchant_reference,
                        balance_after_mutation,
                    })
                },
                _ => None,
            }
        },
        _ => None,
    }
}

/// The payments of a listing document: its `Response` list, where every
/// entry is a payment.
pub open spec fn payment_entries(m: JsonModel) -> Option<Seq<JsonModel>> {
    match json_field(m, "Response"@) {
        Some(JsonModel::List(items)) => if forall|i: int| 0 <= i < items.len() ==> #[trigger] is_payment(items[i]) {
            Some(items)
        } else {
            None
        },
        _ => None,
    }
}

/// The payments in the provider's answer to a payment listing, in order.
pub fn payments_from_response(response: &str) -> (r: Result<Vec<Payment>, BunqyyError>)
    ensures
        (json_parse(response@) matches Some(m) && payment_entries(m) is Some) ==> (r matches Ok(v)
            && v@.len() == payment_entries(json_parse(response@)->Some_0)->Some_0.len()
            && forall|i: int| 0 <= i < v@.len() ==> payment_matches(
                #[trigger] v@[i],
                payment_entries(json_parse(response@)->Some_0)->Some_0[i],
            )),
        (json_parse(response@) is None || payment_entries(json_parse(response@)->Some_0) is None)
            ==> (r matches Err(e) && listing_failure(json_parse(response@), e)),
{
    let v = match parse_json(response) {
        Ok(v) => v,
        Err(_) => return Err(listing_error(None)),
    };
    let x = match json_member(&v, "Response") {
        Some(x) => x,
        None => return Err(listing_error(Some(&v))),
    };
    let items = match json_as_list(x) {
        Some(items) => items,
        None => return Err(listing_error(Some(&v))),
    };
    let ghost list = json_model(*x)->List_0;
    let mut payments: Vec<Payment> = Vec::new();
    let mut i: usize = 0;
    while i < items.len()
        invariant
            i <= items@.len(),
            payments@.len() == i,
            forall|j: int| 0 <= j < i ==> payment_matches(#[trigger] payments@[j], json_model(items@[j])),
            forall|j: int| 0 <= j < i ==> #[trigger] is_payment(json_model(items@[j])),
            list.len() == items@.len(),
            forall|j: int| 0 <= j < items@.len() ==> json_model(#[trigger] items@[j]) == list[j],
            json_field(json_model(v), "Response"@) == Some(JsonModel::List(list)),
            json_parse(response@) == Some(json_model(v)),
        decreases items@.len() - i,
    {
        match decode_payment(&items[i]) {
            Some(p) => payments.push(p),
            None => {
                assert(!is_payment(list[i as int]));
                assert(payment_entries(json_model(v)) is None);
                return Err(listing_error(Some(&v)));
            },
        }
        i += 1;
    }
    assert forall|j: int| 0 <= j < list.len() implies #[trigger] is_payment(list[j]) by {
        assert(json_model(items@[j]) == list[j]);
    }
    Ok(payments)
}

} // verus!
