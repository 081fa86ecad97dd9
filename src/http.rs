//! The provider's response envelope, its well-known headers, and the
//! decisions that the request pipeline takes for each authenticated call.
use vstd::prelude::*;
use crate::api_context::{
    needs_refresh_spec, refresh_request, session_server_body, signed_with, ApiContext, SignedRequest,
};
use crate::signing::{can_sign, create_signer, signature_text};
use crate::api_context::{SessionUserApiKey, SessionUserApiKeyView, UserInformation, UserInformationView};
use crate::common::BunqyyError;
use crate::json::{
    json_as_i64, json_as_list, json_as_text, json_as_u64, json_error_message, json_field, json_member,
    json_model, json_parse, json_i64_of, json_text_of, json_u64_of, parse_json, JsonModel,
};

verus! {

/// The headers that the provider reads on authenticated and signed calls.
#[derive(Clone, Debug)]
pub enum WellKnownBunqHeaders {
    Authentication,
    Signature,
}

impl WellKnownBunqHeaders {
    pub open spec fn name_spec(self) -> Seq<char> {
        match self {
            WellKnownBunqHeaders::Authentication => "X-Bunq-Client-Authentication"@,
            WellKnownBunqHeaders::Signature => "X-Bunq-Client-Signature"@,
        }
    }

    /// The header's name on the wire.
    pub fn to_string(self) -> (r: &'static str)
        ensures
            r@ == self.name_spec(),
    {
        match self {
            WellKnownBunqHeaders::Authentication => "X-Bunq-Client-Authentication",
            WellKnownBunqHeaders::Signature => "X-Bunq-Client-Signature",
        }
    }
}

/// One error entry: what went wrong, and the same for the user in their language.
#[derive(Clone, Debug)]
pub struct BunqError {
    pub error_description: String,
    pub error_description_translated: String,
}

pub struct BunqErrorView {
    pub error_description: Seq<char>,
    pub error_description_translated: Seq<char>,
}

impl View for BunqError {
    type V = BunqErrorView;

    open spec fn view(&self) -> BunqErrorView {
        BunqErrorView {
            error_description: self.error_description@,
            error_description_translated: self.error_description_translated@,
        }
    }
}

/// The error envelope: every error entry, in order.
#[derive(Clone, Debug)]
pub struct BunqResponseError {
    pub error: Vec<BunqError>,
}

/// The success envelope: every entry, in order.
#[derive(Clone, Debug)]
pub struct BunqResponseSuccess<Content> {
    pub response: Vec<Content>,
}

/// Links to further pages of a listing.
#[derive(Clone, Debug)]
pub struct BunqPagination {
    pub future_url: Option<String>,
    pub newer_url: Option<String>,
    pub older_url: Option<String>,
}

/// A decoded response: the success envelope or the error envelope.
#[derive(Clone, Debug)]
pub enum BunqResponse<Content> {
    Success(BunqResponseSuccess<Content>),
    Error(BunqResponseError),
}

pub enum BunqResponseView<C> {
    Success(Seq<C>),
    Error(Seq<BunqErrorView>),
}

impl<Content: View> View for BunqResponse<Content> {
    type V = BunqResponseView<Content::V>;

    open spec fn view(&self) -> BunqResponseView<Content::V> {
        match self {
            BunqResponse::Success(s) => BunqResponseView::Success(
                s.response@.map_values(|c: Content| c@),
            ),
            BunqResponse::Error(e) => BunqResponseView::Error(
                e.error@.map_values(|x: BunqError| x@),
            ),
        }
    }
}

/// One entry of a success envelope, by the variant that names it. Entries of
/// other variants, or of a known variant in another shape, are `Unknown`.
#[derive(Clone, Debug)]
pub enum ResponseEntry {
    Id(u64),
    Token(String),
    ServerPublicKey(String),
    UserApiKey(SessionUserApiKey),
    Unknown,
}

pub enum ResponseEntryView {
    Id(u64),
    Token(Seq<char>),
    ServerPublicKey(Seq<char>),
    UserApiKey(SessionUserApiKeyView),
    Unknown,
}

impl View for ResponseEntry {
    type V = ResponseEntryView;

    open spec fn view(&self) -> ResponseEntryView {
        match self {
            ResponseEntry::Id(n) => ResponseEntryView::Id(*n),
            ResponseEntry::Token(t) => ResponseEntryView::Token(t@),
            ResponseEntry::ServerPublicKey(k) => ResponseEntryView::ServerPublicKey(k@),
            ResponseEntry::UserApiKey(k) => ResponseEntryView::UserApiKey(k@),
            ResponseEntry::Unknown => ResponseEntryView::Unknown,
        }
    }
}

/// The variants that callers search an envelope for.
#[derive(Clone, Copy, PartialEq, Eq, Structural)]
pub enum EntryKind {
    Id,
    Token,
    ServerPublicKey,
    UserApiKey,
}

pub open spec fn kind_matches(e: ResponseEntryView, kind: EntryKind) -> bool {
    match kind {
        EntryKind::Id => e is Id,
        EntryKind::Token => e is Token,
        EntryKind::ServerPublicKey => e is ServerPublicKey,
        EntryKind::UserApiKey => e is UserApiKey,
    }
}

/// The first entry of `entries` of the variant `kind`.
pub open spec fn first_entry(entries: Seq<ResponseEntryView>, kind: EntryKind) -> Option<ResponseEntryView>
    decreases entries.len(),
{
    if entries.len() == 0 {
        None
    } else if kind_matches(entries[0], kind) {
        Some(entries[0])
    } else {
        first_entry(entries.drop_first(), kind)
    }
}

/// The text under `key` in the object `m`.
pub open spec fn text_field(m: JsonModel, key: Seq<char>) -> Option<Seq<char>> {
    match json_field(m, key) {
        Some(x) => json_text_of(x),
        None => None,
    }
}

/// The unsigned integer under `key` in the object `m`.
pub open spec fn u64_field(m: JsonModel, key: Seq<char>) -> Option<u64> {
    match json_field(m, key) {
        Some(x) => json_u64_of(x),
        None => None,
    }
}

/// The signed integer under `key` in the object `m`.
pub open spec fn i64_field(m: JsonModel, key: Seq<char>) -> Option<i64> {
    match json_field(m, key) {
        Some(x) => json_i64_of(x),
        None => None,
    }
}

/// A user profile in its wrapping `{"UserPerson": {...}}`.
pub open spec fn user_of(m: JsonModel) -> Option<UserInformationView> {
    match json_field(m, "UserPerson"@) {
        Some(p) => match (
            u64_field(p, "id"@),
            text_field(p, "display_name"@),
            text_field(p, "public_nick_name"@),
            u64_field(p, "session_timeout"@),
        ) {
            (Some(id), Some(display_name), Some(public_nick_name), Some(session_timeout)) => Some(
                UserInformationView { id, display_name, public_nick_name, session_timeout },
            ),
            _ => None,
        },
        None => None,
    }
}

/// The body of a `UserApiKey` entry.
pub open spec fn user_api_key_of(m: JsonModel) -> Option<SessionUserApiKeyView> {
    match (json_field(m, "requested_by_user"@), json_field(m, "granted_by_user"@)) {
        (Some(r), Some(g)) => match (u64_field(m, "id"@), user_of(r), user_of(g)) {
            (Some(id), Some(requested_by_user), Some(granted_by_user)) => Some(
                SessionUserApiKeyView { id, requested_by_user, granted_by_user },
            ),
            _ => None,
        },
        _ => None,
    }
}

/// The body under `key` in `m`, read by `read`.
pub open spec fn variant_body<T>(m: JsonModel, key: Seq<char>, read: spec_fn(JsonModel) -> Option<T>) -> Option<T> {
    match json_field(m, key) {
        Some(body) => read(body),
        None => None,
    }
}

/// An entry of a success envelope: the first known variant that it holds in
/// the expected shape, or `Unknown`.
pub open spec fn entry_of(m: JsonModel) -> ResponseEntryView {
    if let Some(id) = variant_body(m, "Id"@, |b: JsonModel| u64_field(b, "id"@)) {
        ResponseEntryView::Id(id)
    } else if let Some(t) = variant_body(m, "Token"@, |b: JsonModel| text_field(b, "token"@)) {
        ResponseEntryView::Token(t)
    } else if let Some(k) = variant_body(
        m,
        "ServerPublicKey"@,
        |b: JsonModel| text_field(b, "server_public_key"@),
    ) {
        ResponseEntryView::ServerPublicKey(k)
    } else if let Some(k) = variant_body(m, "UserApiKey"@, |b: JsonModel| user_api_key_of(b)) {
        ResponseEntryView::UserApiKey(k)
    } else {
        ResponseEntryView::Unknown
    }
}

/// An entry of an error envelope, where it has both descriptions.
pub open spec fn error_of(m: JsonModel) -> Option<BunqErrorView> {
    match (text_field(m, "error_description"@), text_field(m, "error_description_translated"@)) {
        (Some(d), Some(t)) => Some(
            BunqErrorView { error_description: d, error_description_translated: t },
        ),
        _ => None,
    }
}

/// The entries of an `Error` list in `m`, where all of them have both descriptions.
pub open spec fn errors_of(m: JsonModel) -> Option<Seq<BunqErrorView>> {
    match json_field(m, "Error"@) {
        Some(JsonModel::List(items)) => if forall|i: int|
            0 <= i < items.len() ==> (#[trigger] error_of(items[i])) is Some {
            Some(items.map_values(|x: JsonModel| error_of(x)->0))
        } else {
            None
        },
        _ => None,
    }
}

/// The envelope that a document holds: a `Response` list, else an `Error`
/// list whose entries all have both descriptions, else none.
pub open spec fn envelope_of(m: JsonModel) -> Option<BunqResponseView<ResponseEntryView>> {
    match json_field(m, "Response"@) {
        Some(JsonModel::List(items)) => Some(
            BunqResponseView::Success(items.map_values(|x: JsonModel| entry_of(x))),
        ),
        _ => match errors_of(m) {
            Some(es) => Some(BunqResponseView::Error(es)),
            None => None,
        },
    }
}

/// The error owed for a document whose success envelope does not decode:
/// the provider's errors, all of them, where it holds an error envelope,
/// else a deserialization error.
pub open spec fn listing_failure(m: Option<JsonModel>, e: BunqyyError) -> bool {
    match m {
        Some(m) => match errors_of(m) {
            Some(es) => e matches BunqyyError::ProviderError(v) && v@.map_values(|x: BunqError| x@) == es,
            None => e is ResponseDeserialization,
        },
        None => e is ResponseDeserialization,
    }
}

pub(crate) fn read_text_field(v: &serde_json::Value, key: &str) -> (r: Option<String>)
    ensures
        r matches Some(s) ==> text_field(json_model(*v), key@) == Some(s@),
        r is None ==> text_field(json_model(*v), key@) is None,
{
    match json_member(v, key) {
        Some(x) => match json_as_text(x) {
            Some(s) => Some(s.to_owned()),
            None => None,
        },
        None => None,
    }
}

pub(crate) fn read_u64_field(v: &serde_json::Value, key: &str) -> (r: Option<u64>)
    ensures
        r == u64_field(json_model(*v), key@),
{
    match json_member(v, key) {
        Some(x) => json_as_u64(x),
        None => None,
    }
}

pub(crate) fn read_i64_field(v: &serde_json::Value, key: &str) -> (r: Option<i64>)
    ensures
        r == i64_field(json_model(*v), key@),
{
    match json_member(v, key) {
        Some(x) => json_as_i64(x),
        None => None,
    }
}

fn read_user(v: &serde_json::Value) -> (r: Option<UserInformation>)
    ensures
        r matches Some(u) ==> user_of(json_model(*v)) == Some(u@),
        r is None ==> user_of(json_model(*v)) is None,
{
    let p = match json_member(v, "UserPerson") {
        Some(p) => p,
        None => return None,
    };
    let id = read_u64_field(p, "id");
    let display_name = read_text_field(p, "display_name");
    let public_nick_name = read_text_field(p, "public_nick_name");
    let session_timeout = read_u64_field(p, "session_timeout");
    match (id, display_name, public_nick_name, session_timeout) {
        (Some(id), Some(display_name), Some(public_nick_name), Some(session_timeout)) => Some(
            UserInformation { id, display_name, public_nick_name, session_timeout },
        ),
        _ => None,
    }
}

fn read_user_api_key(v: &serde_json::Value) -> (r: Option<SessionUserApiKey>)
    ensures
        r matches Some(k) ==> user_api_key_of(json_model(*v)) == Some(k@),
        r is None ==> user_api_key_of(json_model(*v)) is None,
{
    let requested = match json_member(v, "requested_by_user") {
        Some(x) => x,
        None => return None,
    };
    let granted = match json_member(v, "granted_by_user") {
        Some(x) => x,
        None => return None,
    };
    match (read_u64_field(v, "id"), read_user(requested), read_user(granted)) {
        (Some(id), Some(requested_by_user), Some(granted_by_user)) => Some(
            SessionUserApiKey { id, requested_by_user, granted_by_user },
        ),
        _ => None,
    }
}

/// Decodes one entry of a success envelope.
pub fn decode_entry(v: &serde_json::Value) -> (r: ResponseEntry)
    ensures
        r@ == entry_of(json_model(*v)),
{
    if let Some(b) = json_member(v, "Id") {
        if let Some(id) = read_u64_field(b, "id") {
            return ResponseEntry::Id(id);
        }
    }
    if let Some(b) = json_member(v, "Token") {
        if let Some(t) = read_text_field(b, "token") {
            return ResponseEntry::Token(t);
        }
    }
    if let Some(b) = json_member(v, "ServerPublicKey") {
        if let Some(k) = read_text_field(b, "server_public_key") {
            return ResponseEntry::ServerPublicKey(k);
        }
    }
    if let Some(b) = json_member(v, "UserApiKey") {
        if let Some(k) = read_user_api_key(b) {
            return ResponseEntry::UserApiKey(k);
        }
    }
    ResponseEntry::Unknown
}

fn decode_entries(items: &Vec<serde_json::Value>) -> (r: Vec<ResponseEntry>)
    ensures
        r@.map_values(|e: ResponseEntry| e@) == items@.map_values(
            |x: serde_json::Value| entry_of(json_model(x)),
        ),
{
    let mut r: Vec<ResponseEntry> = Vec::new();
    let mut i: usize = 0;
    while i < items.len()
        invariant
            i <= items@.len(),
            r@.len() == i,
            forall|j: int| 0 <= j < i ==> (#[trigger] r@[j])@ == entry_of(json_model(items@[j])),
        decreases items@.len() - i,
    {
        r.push(decode_entry(&items[i]));
        i += 1;
    }
    assert(r@.map_values(|e: ResponseEntry| e@) =~= items@.map_values(
        |x: serde_json::Value| entry_of(json_model(x)),
    ));
    r
}

fn decode_errors(items: &Vec<serde_json::Value>) -> (r: Option<Vec<BunqError>>)
    ensures
        r is Some <==> forall|i: int|
            0 <= i < items@.len() ==> (#[trigger] error_of(json_model(items@[i]))) is Some,
        r matches Some(es) ==> es@.map_values(|e: BunqError| e@) == items@.map_values(
            |x: serde_json::Value| error_of(json_model(x))->0,
        ),
{
    let mut r: Vec<BunqError> = Vec::new();
    let mut i: usize = 0;
    while i < items.len()
        invariant
            i <= items@.len(),
            r@.len() == i,
            forall|j: int| 0 <= j < i ==> (#[trigger] error_of(json_model(items@[j]))) is Some,
            forall|j: int|
                0 <= j < i ==> Some((#[trigger] r@[j])@) == error_of(json_model(items@[j])),
        decreases items@.len() - i,
    {
        let description = read_text_field(&items[i], "error_description");
        let translated = read_text_field(&items[i], "error_description_translated");
        match (description, translated) {
            (Some(error_description), Some(error_description_translated)) => {
                r.push(BunqError { error_description, error_description_translated });
            },
            _ => {
                assert(error_of(json_model(items@[i as int])) is None);
                return None;
            },
        }
        i += 1;
    }
    assert(r@.map_values(|e: BunqError| e@) =~= items@.map_values(
        |x: serde_json::Value| error_of(json_model(x))->0,
    ));
    Some(r)
}

/// Decodes a parsed document as an envelope.
pub fn decode_envelope(v: &serde_json::Value) -> (r: Option<BunqResponse<ResponseEntry>>)
    ensures
        r matches Some(e) ==> envelope_of(json_model(*v)) == Some(e@),
        r is None ==> envelope_of(json_model(*v)) is None,
{
    if let Some(x) = json_member(v, "Response") {
        if let Some(items) = json_as_list(x) {
            let entries = decode_entries(items);
            proof {
                let list = json_model(*x)->List_0;
                assert(items@.map_values(|y: serde_json::Value| entry_of(json_model(y)))
                    =~= list.map_values(|y: JsonModel| entry_of(y)));
            }
            return Some(BunqResponse::Success(BunqResponseSuccess { response: entries }));
        }
    }
    match decode_error_envelope(v) {
        Some(e) => Some(BunqResponse::Error(e)),
        None => None,
    }
}

/// Decodes the error envelope of a parsed document.
pub fn decode_error_envelope(v: &serde_json::Value) -> (r: Option<BunqResponseError>)
    ensures
        r matches Some(e) ==> errors_of(json_model(*v)) == Some(e.error@.map_values(|x: BunqError| x@)),
        r is None ==> errors_of(json_model(*v)) is None,
{
    if let Some(x) = json_member(v, "Error") {
        if let Some(items) = json_as_list(x) {
            let list = Ghost(json_model(*x)->List_0);
            match decode_errors(items) {
                Some(errors) => {
                    proof {
                        assert(items@.map_values(|y: serde_json::Value| error_of(json_model(y))->0)
                            =~= list@.map_values(|y: JsonModel| error_of(y)->0));
                        assert forall|i: int| 0 <= i < list@.len() implies (#[trigger] error_of(list@[i])) is Some by {
                            assert(error_of(json_model(items@[i])) is Some);
                        }
                    }
                    return Some(BunqResponseError { error: errors });
                },
                None => {
                    proof {
                        let i = choose|i: int| 0 <= i < items@.len() && !((#[trigger] error_of(json_model(items@[i]))) is Some);
                        assert(error_of(list@[i]) is None);
                    }
                    return None;
                },
            }
        }
    }
    None
}

/// The error for a document whose success envelope did not decode.
pub fn listing_error(v: Option<&serde_json::Value>) -> (r: BunqyyError)
    ensures
        listing_failure(
            match v {
                Some(x) => Some(json_model(*x)),
                None => None,
            },
            r,
        ),
{
    match v {
        Some(x) => match decode_error_envelope(x) {
            Some(e) => BunqyyError::ProviderError(e.error),
            None => BunqyyError::ResponseDeserialization(
                "the response holds no entries of the expected kind".to_owned(),
            ),
        },
        None => BunqyyError::ResponseDeserialization("the response is not a JSON document".to_owned()),
    }
}

/// The envelope that the text of a response holds: an error of
/// deserialization where the text is no JSON document, or no envelope.
pub open spec fn response_content_spec(text: Seq<char>) -> Option<BunqResponseView<ResponseEntryView>> {
    match json_parse(text) {
        Some(m) => envelope_of(m),
        None => None,
    }
}

/// Reads the text of a response as an envelope.
pub fn process_response_content(response_content: &str) -> (r: Result<BunqResponse<ResponseEntry>, BunqyyError>)
    ensures
        r matches Ok(e) ==> response_content_spec(response_content@) == Some(e@),
        r is Err ==> response_content_spec(response_content@) is None,
        r matches Err(e) ==> e is ResponseDeserialization,
{
    match parse_json(response_content) {
        Ok(v) => match decode_envelope(&v) {
            Some(e) => Ok(e),
            None => Err(BunqyyError::ResponseDeserialization(
                "the response is neither a Response nor an Error envelope".to_owned(),
            )),
        },
        Err(e) => Err(BunqyyError::ResponseDeserialization(json_error_message(&e))),
    }
}

/// Finds the first entry of the variant `kind`.
pub fn find_first(entries: &Vec<ResponseEntry>, kind: EntryKind) -> (r: Option<&ResponseEntry>)
    ensures
        r matches Some(e) ==> first_entry(entries@.map_values(|x: ResponseEntry| x@), kind) == Some(e@),
        r is None ==> first_entry(entries@.map_values(|x: ResponseEntry| x@), kind) is None,
{
    let ghost all = entries@.map_values(|x: ResponseEntry| x@);
    assert(all.subrange(0, all.len() as int) =~= all);
    let mut i: usize = 0;
    while i < entries.len()
        invariant
            i <= entries@.len(),
            all == entries@.map_values(|x: ResponseEntry| x@),
            first_entry(all, kind) == first_entry(all.subrange(i as int, all.len() as int), kind),
        decreases entries@.len() - i,
    {
        let e = &entries[i];
        let hit = match (e, kind) {
            (ResponseEntry::Id(_), EntryKind::Id) => true,
            (ResponseEntry::Token(_), EntryKind::Token) => true,
            (ResponseEntry::ServerPublicKey(_), EntryKind::ServerPublicKey) => true,
            (ResponseEntry::UserApiKey(_), EntryKind::UserApiKey) => true,
            _ => false,
        };
        let ghost rest = all.subrange(i as int, all.len() as int);
        assert(rest[0] == e@);
        if hit {
            return Some(e);
        }
        assert(rest.drop_first() =~= all.subrange(i + 1, all.len() as int));
        i += 1;
    }
    None
}

/// The headers of one authenticated call.
#[derive(Clone, Debug)]
pub struct AuthenticationHeaders {
    /// The value of the authentication header: the session token.
    pub authentication: String,
    /// The value of the signature header, for a call with a body.
    pub signature: Option<String>,
}

/// Authenticates a call with the current session, and signs its body, when
/// it has one, with the installation's private key.
pub fn authenticate_request(context: &ApiContext, body: Option<&[u8]>) -> (r: Result<AuthenticationHeaders, BunqyyError>)
    ensures
        r matches Ok(h) ==> h.authentication@ == context.session_context.token@,
        r matches Ok(h) ==> (h.signature is Some <==> body is Some),
        (r is Ok && body is Some) ==> r->Ok_0.signature->Some_0@ == signature_text(
            context.installation_context.private_key_client@,
            body->Some_0@,
        ),
        r is Ok <==> (body is None || can_sign(context.installation_context.private_key_client@)),
        r matches Err(e) ==> e is InvalidPrivateKey,
{
    let signature = match body {
        Some(b) => {
            let signer = create_signer(context.installation_context.private_key_client.clone());
            Some(signer.sign(b)?)
        },
        None => None,
    };
    Ok(AuthenticationHeaders { authentication: context.session_context.token.clone(), signature })
}

/// What the refreshing stage does before a call at the Unix time `now`: no
/// request where the session is still good, else the session negotiation
/// that refreshes it.
pub fn session_refresh_step(context: &ApiContext, now: i64) -> (r: Result<Option<SignedRequest>, BunqyyError>)
    ensures
        !needs_refresh_spec(context.session_context.valid_until, now) ==> r matches Ok(None),
        needs_refresh_spec(context.session_context.valid_until, now) ==> (r is Err || r matches Ok(Some(_))),
        needs_refresh_spec(context.session_context.valid_until, now) ==> (r is Ok <==> can_sign(
            context.installation_context.private_key_client@,
        )),
        r matches Ok(Some(q)) ==> json_parse(q.body@) == Some(session_server_body(context.api_key@))
            && signed_with(
            q,
            context.installation_context.token@,
            context.installation_context.private_key_client@,
        ),
        r matches Err(e) ==> e is InvalidPrivateKey,
{
    if context.session_context.needs_to_be_refreshed(now) {
        Ok(Some(refresh_request(context)?))
    } else {
        Ok(None)
    }
}

} // verus!
