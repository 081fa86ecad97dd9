//! Monetary accounts of every kind, with the fields that all kinds share.
use vstd::prelude::*;
use vstd::string::*;
use crate::api_context::str_equal;
use crate::common::BunqyyError;
use crate::http::{listing_error, listing_failure, read_text_field, read_u64_field, text_field, u64_field};
use crate::json::{json_as_list, json_field, json_member, json_model, json_parse, parse_json, JsonModel};

verus! {

/// The id of a monetary account.
#[derive(Clone, Copy, Debug, PartialEq, Eq, Structural)]
pub struct MonetaryAccountId(pub u64);

/// An amount of money: its currency and its value as the provider writes it.
#[derive(Clone, Debug)]
pub struct Amount {
    pub currency: String,
    pub value: String,
}

/// The status of a monetary account.
#[derive(Clone, Copy, Debug, PartialEq, Eq, Structural)]
pub enum Status {
    Active,
    Blocked,
    Cancelled,
    PendingReopen,
}

#[derive(Clone, Debug)]
pub struct MonetaryAccountBank {
    pub currency: String,
    pub balance: Amount,
    pub status: Status,
    pub sub_status: String,
    pub description: String,
    pub display_name: String,
    pub id: MonetaryAccountId,
}

#[derive(Clone, Debug)]
pub struct MonetaryAccountSavings {
    pub currency: String,
    pub balance: Amount,
    pub status: Status,
    pub sub_status: String,
    pub description: String,
    pub display_name: String,
    pub id: MonetaryAccountId,
    pub number_of_payment_remaining: u8,
}

#[derive(Clone, Debug)]
pub struct MonetaryAccountExternalSavings {
    pub currency: String,
    pub balance: Amount,
    pub status: Status,
    pub sub_status: String,
    pub description: String,
    pub display_name: String,
    pub id: MonetaryAccountId,
    pub number_of_payment_remaining: u8,
}

/// A monetary account of one of the kinds the provider has.
#[derive(Clone, Debug)]
pub enum MonetaryAccount {
    MonetaryAccountBank(MonetaryAccountBank),
    MonetaryAccountExternalSavings(MonetaryAccountExternalSavings),
    MonetaryAccountSavings(MonetaryAccountSavings),
}

impl MonetaryAccount {
    pub open spec fn display_name_spec(&self) -> Seq<char> {
        match self {
            MonetaryAccount::MonetaryAccountBank(a) => a.display_name@,
            MonetaryAccount::MonetaryAccountExternalSavings(a) => a.display_name@,
            MonetaryAccount::MonetaryAccountSavings(a) => a.display_name@,
        }
    }

    pub open spec fn description_spec(&self) -> Seq<char> {
        match self {
            MonetaryAccount::MonetaryAccountBank(a) => a.description@,
            MonetaryAccount::MonetaryAccountExternalSavings(a) => a.description@,
            MonetaryAccount::MonetaryAccountSavings(a) => a.description@,
        }
    }

    pub open spec fn balance_spec(&self) -> &Amount {
        match self {
            MonetaryAccount::MonetaryAccountBank(a) => &a.balance,
            MonetaryAccount::MonetaryAccountExternalSavings(a) => &a.balance,
            MonetaryAccount::MonetaryAccountSavings(a) => &a.balance,
        }
    }

    pub open spec fn id_spec(&self) -> MonetaryAccountId {
        match self {
            MonetaryAccount::MonetaryAccountBank(a) => a.id,
            MonetaryAccount::MonetaryAccountExternalSavings(a) => a.id,
            MonetaryAccount::MonetaryAccountSavings(a) => a.id,
        }
    }

    pub open spec fn status_spec(&self) -> Status {
        match self {
            MonetaryAccount::MonetaryAccountBank(a) => a.status,
            MonetaryAccount::MonetaryAccountExternalSavings(a) => a.status,
            MonetaryAccount::MonetaryAccountSavings(a) => a.status,
        }
    }

    /// The account's display name and description, as `name : description`.
    pub fn get_name(&self) -> (r: String)
        ensures
            r@ == self.display_name_spec() + " : "@ + self.description_spec(),
    {
        let (display_name, description) = match self {
            MonetaryAccount::MonetaryAccountBank(a) => (&a.display_name, &a.description),
            MonetaryAccount::MonetaryAccountExternalSavings(a) => (&a.display_name, &a.description),
            MonetaryAccount::MonetaryAccountSavings(a) => (&a.display_name, &a.description),
        };
        display_name.clone().concat(" : ").concat(description.as_str())
    }

    pub fn get_balance(&self) -> (r: &Amount)
        ensures
            r == self.balance_spec(),
    {
        match self {
            MonetaryAccount::MonetaryAccountBank(a) => &a.balance,
            MonetaryAccount::MonetaryAccountExternalSavings(a) => &a.balance,
            MonetaryAccount::MonetaryAccountSavings(a) => &a.balance,
        }
    }

    pub fn get_id(&self) -> (r: MonetaryAccountId)
        ensures
            r == self.id_spec(),
    {
        match self {
            MonetaryAccount::MonetaryAccountBank(a) => a.id,
            MonetaryAccount::MonetaryAccountExternalSavings(a) => a.id,
            MonetaryAccount::MonetaryAccountSavings(a) => a.id,
        }
    }

    pub fn get_status(&self) -> (r: &Status)
        ensures
            *r == self.status_spec(),
    {
        match self {
            MonetaryAccount::MonetaryAccountBank(a) => &a.status,
            MonetaryAccount::MonetaryAccountExternalSavings(a) => &a.status,
            MonetaryAccount::MonetaryAccountSavings(a) => &a.status,
        }
    }
}

/// The status that a name stands for, in either spelling the provider uses.
pub open spec fn status_of(s: Seq<char>) -> Option<Status> {
    if s == "Active"@ || s == "ACTIVE"@ {
        Some(Status::Active)
    } else if s == "Blocked"@ || s == "BLOCKED"@ {
        Some(Status::Blocked)
    } else if s == "Cancelled"@ || s == "CANCELLED"@ {
        Some(Status::Cancelled)
    } else if s == "PendingReopen"@ || s == "PENDING_REOPEN"@ {
        Some(Status::PendingReopen)
    } else {
        None
    }
}

pub fn read_status(s: &str) -> (r: Option<Status>)
    ensures
        r == status_of(s@),
{
    if str_equal(s, "Active") || str_equal(s, "ACTIVE") {
        Some(Status::Active)
    } else if str_equal(s, "Blocked") || str_equal(s, "BLOCKED") {
        Some(Status::Blocked)
    } else if str_equal(s, "Cancelled") || str_equal(s, "CANCELLED") {
        Some(Status::Cancelled)
    } else if str_equal(s, "PendingReopen") || str_equal(s, "PENDING_REOPEN") {
        Some(Status::PendingReopen)
    } else {
        None
    }
}

/// `a` is the amount that `m` describes.
pub open spec fn amount_matches(a: Amount, m: JsonModel) -> bool {
    &&& text_field(m, "currency"@) == Some(a.currency@)
    &&& text_field(m, "value"@) == Some(a.value@)
}

/// `m` describes an amount.
pub open spec fn is_amount(m: JsonModel) -> bool {
    text_field(m, "currency"@) is Some && text_field(m, "value"@) is Some
}

pub fn read_amount(v: &serde_json::Value) -> (r: Option<Amount>)
    ensures
        r matches Some(a) ==> amount_matches(a, json_model(*v)),
        r is None <==> !is_amount(json_model(*v)),
{
    match (read_text_field(v, "currency"), read_text_field(v, "value")) {
        (Some(currency), Some(value)) => Some(Amount { currency, value }),
        _ => None,
    }
}

/// The fields that all kinds of account share, as `m` gives them.
pub open spec fn common_fields_match(
    m: JsonModel,
    currency: String,
    balance: Amount,
    status: Status,
    sub_status: String,
    description: String,
    display_name: String,
    id: MonetaryAccountId,
) -> bool {
    &&& text_field(m, "currency"@) == Some(currency@)
    &&& json_field(m, "balance"@) matches Some(b) && amount_matches(balance, b)
    &&& text_field(m, "status"@) matches Some(s) && status_of(s) == Some(status)
    &&& text_field(m, "sub_status"@) == Some(sub_status@)
    &&& text_field(m, "description"@) == Some(description@)
    &&& text_field(m, "display_name"@) == Some(display_name@)
    &&& u64_field(m, "id"@) == Some(id.0)
}

/// `m` has every field that all kinds of account share.
pub open spec fn has_common_fields(m: JsonModel) -> bool {
    &&& text_field(m, "currency"@) is Some
    &&& json_field(m, "balance"@) matches Some(b) && is_amount(b)
    &&& text_field(m, "status"@) matches Some(s) && status_of(s) is Some
    &&& text_field(m, "sub_status"@) is Some
    &&& text_field(m, "description"@) is Some
    &&& text_field(m, "display_name"@) is Some
    &&& u64_field(m, "id"@) is Some
}

/// The number of payments left, where `m` gives one that fits a byte.
pub open spec fn payments_remaining_of(m: JsonModel) -> Option<u8> {
    match u64_field(m, "number_of_payment_remaining"@) {
        Some(n) => if n <= u8::MAX {
            Some(n as u8)
        } else {
            None
        },
        None => None,
    }
}

/// `a` is the account that the entry `m` describes, by the kind that names it.
pub open spec fn account_matches(a: MonetaryAccount, m: JsonModel) -> bool {
    match a {
        MonetaryAccount::MonetaryAccountBank(x) => json_field(m, "MonetaryAccountBank"@) matches Some(b)
            && common_fields_match(b, x.currency, x.balance, x.status, x.sub_status, x.description, x.display_name, x.id),
        MonetaryAccount::MonetaryAccountExternalSavings(x) => json_field(m, "MonetaryAccountBank"@) is None
            && (json_field(m, "MonetaryAccountExternalSavings"@) matches Some(b)
            && common_fields_match(b, x.currency, x.balance, x.status, x.sub_status, x.description, x.display_name, x.id)
            && payments_remaining_of(b) == Some(x.number_of_payment_remaining)),
        MonetaryAccount::MonetaryAccountSavings(x) => json_field(m, "MonetaryAccountBank"@) is None
            && json_field(m, "MonetaryAccountExternalSavings"@) is None
            && (json_field(m, "MonetaryAccountSavings"@) matches Some(b)
            && common_fields_match(b, x.currency, x.balance, x.status, x.sub_status, x.description, x.display_name, x.id)
            && payments_remaining_of(b) == Some(x.number_of_payment_remaining)),
    }
}

/// The entry `m` describes an account: the first kind that it names has all its fields.
pub open spec fn is_account(m: JsonModel) -> bool {
    match json_field(m, "MonetaryAccountBank"@) {
        Some(b) => has_common_fields(b),
        None => match json_field(m, "MonetaryAccountExternalSavings"@) {
            Some(b) => has_common_fields(b) && payments_remaining_of(b) is Some,
            None => match json_field(m, "MonetaryAccountSavings"@) {
                Some(b) => has_common_fields(b) && payments_remaining_of(b) is Some,
                None => false,
            },
        },
    }
}

struct CommonFields {
    currency: String,
    balance: Amount,
    status: Status,
    sub_status: String,
    description: String,
    display_name: String,
    id: MonetaryAccountId,
}

fn read_common_fields(v: &serde_json::Value) -> (r: Option<CommonFields>)
    ensures
        r matches Some(c) ==> common_fields_match(
            json_model(*v),
            c.currency,
            c.balance,
            c.status,
            c.sub_status,
            c.description,
            c.display_name,
            c.id,
        ),
        r is None <==> !has_common_fields(json_model(*v)),
{
    let balance = match json_member(v, "balance") {
        Some(b) => read_amount(b),
        None => None,
    };
    let status = match read_text_field(v, "status") {
        Some(s) => read_status(s.as_str()),
        None => None,
    };
    match (
        read_text_field(v, "currency"),
        balance,
        status,
        read_text_field(v, "sub_status"),
        read_text_field(v, "description"),
        read_text_field(v, "display_name"),
        read_u64_field(v, "id"),
    ) {
        (
            Some(currency),
            Some(balance),
            Some(status),
            Some(sub_status),
            Some(description),
            Some(display_name),
            Some(id),
        ) => Some(CommonFields {
            currency,
            balance,
            status,
            sub_status,
            description,
            display_name,
            id: MonetaryAccountId(id),
        }),
        _ => None,
    }
}

fn read_payments_remaining(v: &serde_json::Value) -> (r: Option<u8>)
    ensures
        r == payments_remaining_of(json_model(*v)),
{
    match read_u64_field(v, "number_of_payment_remaining") {
        Some(n) => if n <= 255 {
            Some(n as u8)
        } else {
            None
        },
        None => None,
    }
}

/// Decodes one entry of an account listing.
pub fn decode_account(v: &serde_json::Value) -> (r: Option<MonetaryAccount>)
    ensures
        r matches Some(a) ==> account_matches(a, json_model(*v)),
        r is None <==> !is_account(json_model(*v)),
{
    if let Some(b) = json_member(v, "MonetaryAccountBank") {
        let c = read_common_fields(b)?;
        return Some(MonetaryAccount::MonetaryAccountBank(MonetaryAccountBank {
            currency: c.currency,
            balance: c.balance,
            status: c.status,
            sub_status: c.sub_status,
            description: c.description,
            display_name: c.display_name,
            id: c.id,
        }));
    }
    if let Some(b) = json_member(v, "MonetaryAccountExternalSavings") {
        let c = read_common_fields(b);
        let n = read_payments_remaining(b);
        return match (c, n) {
            (Some(c), Some(n)) => Some(MonetaryAccount::MonetaryAccountExternalSavings(MonetaryAccountExternalSavings {
                currency: c.currency,
                balance: c.balance,
                status: c.status,
                sub_status: c.sub_status,
                description: c.description,
                display_name: c.display_name,
                id: c.id,
                number_of_payment_remaining: n,
            })),
            _ => None,
        };
    }
    if let Some(b) = json_member(v, "MonetaryAccountSavings") {
        let c = read_common_fields(b);
        let n = read_payments_remaining(b);
        return match (c, n) {
            (Some(c), Some(n)) => Some(MonetaryAccount::MonetaryAccountSavings(MonetaryAccountSavings {
                currency: c.currency,
                balance: c.balance,
                status: c.status,
                sub_status: c.sub_status,
                description: c.description,
                display_name: c.display_name,
                id: c.id,
                number_of_payment_remaining: n,
            })),
            _ => None,
        };
    }
    None
}

/// The accounts of a listing document: its `Response` list, where every
/// entry is an account.
pub open spec fn account_entries(m: JsonModel) -> Option<Seq<JsonModel>> {
    match json_field(m, "Response"@) {
        Some(JsonModel::List(items)) => if forall|i: int| 0 <= i < items.len() ==> #[trigger] is_account(items[i]) {
            Some(items)
        } else {
            None
        },
        _ => None,
    }
}

/// The accounts in the provider's answer to an account listing, in order.
pub fn monetary_accounts_from_response(response: &str) -> (r: Result<Vec<MonetaryAccount>, BunqyyError>)
    ensures
        (json_parse(response@) matches Some(m) && account_entries(m) is Some) ==> (r matches Ok(v)
            && v@.len() == account_entries(json_parse(response@)->Some_0)->Some_0.len()
            && forall|i: int| 0 <= i < v@.len() ==> account_matches(
                #[trigger] v@[i],
                account_entries(json_parse(response@)->Some_0)->Some_0[i],
            )),
        (json_parse(response@) is None || account_entries(json_parse(response@)->Some_0) is None)
            ==> (r matches Err(e) && listing_failure(json_parse(response@), e)),
{
    let v = match parse_json(response) {
        Ok(v) => v,
        Err(_) => return Err(listing_error(None)),
    };
    let x = match json_member(&v, "Response") {
        Some(x) => x,
        None => return Err(listing_error(Some(&v))),
    };
    let items = match json_as_list(x) {
        Some(items) => items,
        None => return Err(listing_error(Some(&v))),
    };
    let ghost list = json_model(*x)->List_0;
    assert(json_field(json_model(v), "Response"@) == Some(JsonModel::List(list)));
    let mut accounts: Vec<MonetaryAccount> = Vec::new();
    let mut i: usize = 0;
    while i < items.len()
        invariant
            i <= items@.len(),
            accounts@.len() == i,
            forall|j: int| 0 <= j < i ==> account_matches(#[trigger] accounts@[j], json_model(items@[j])),
            forall|j: int| 0 <= j < i ==> #[trigger] is_account(json_model(items@[j])),
            list.len() == items@.len(),
            forall|j: int| 0 <= j < items@.len() ==> json_model(#[trigger] items@[j]) == list[j],
            json_field(json_model(v), "Response"@) == Some(JsonModel::List(list)),
            json_parse(response@) == Some(json_model(v)),
        decreases items@.len() - i,
    {
        match decode_account(&items[i]) {
            Some(a) => accounts.push(a),
            None => {
                assert(!is_account(list[i as int]));
                assert(account_entries(json_model(v)) is None);
                return Err(listing_error(Some(&v)));
            },
        }
        i += 1;
    }
    assert forall|j: int| 0 <= j < list.len() implies #[trigger] is_account(list[j]) by {
        assert(json_model(items@[j]) == list[j]);
    }
    Ok(accounts)
}

} // verus!
