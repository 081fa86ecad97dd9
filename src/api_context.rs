//! The credential bundle, the handshake that builds it, its store, and its refresh.
use vstd::prelude::*;
use vstd::string::*;
use crate::common::BunqyyError;
use crate::http::{
    find_first, kind_matches, process_response_content, response_content_spec, first_entry, BunqError,
    BunqResponse, BunqResponseView, EntryKind, ResponseEntry, ResponseEntryView,
};
use crate::json::{
    json_empty_list, json_empty_object, json_from_text, object_insert,
    json_parse, json_to_text, JsonModel,
};
use crate::signing::{
    can_sign, create_signer, generate_keypair, rsa_modulus_bytes, rsa_public_pem_of, signature_text, KeyPair,
    Signer,
};
use vstd::utf8::encode_utf8;

verus! {

/// The provider's environment that a bundle was made for.
#[allow(non_camel_case_types, clippy::upper_case_acronyms)]
#[derive(Clone, Copy, Debug, PartialEq, Eq, Structural)]
pub enum Environment {
    SANDBOX,
    PRODUCTION,
}

/// A profile of a user, as the provider describes it in a session.
#[derive(Clone, Debug)]
pub struct UserInformation {
    pub id: u64,
    pub display_name: String,
    pub public_nick_name: String,
    pub session_timeout: u64,
}

pub struct UserInformationView {
    pub id: u64,
    pub display_name: Seq<char>,
    pub public_nick_name: Seq<char>,
    pub session_timeout: u64,
}

impl View for UserInformation {
    type V = UserInformationView;

    open spec fn view(&self) -> UserInformationView {
        UserInformationView {
            id: self.id,
            display_name: self.display_name@,
            public_nick_name: self.public_nick_name@,
            session_timeout: self.session_timeout,
        }
    }
}

/// The API key of a session, with the user who requested it and the user who granted it.
#[derive(Clone, Debug)]
pub struct SessionUserApiKey {
    pub id: u64,
    /// The user that manages the OAuth application.
    pub requested_by_user: UserInformation,
    /// The user that granted the application its access.
    pub granted_by_user: UserInformation,
}

pub struct SessionUserApiKeyView {
    pub id: u64,
    pub requested_by_user: UserInformationView,
    pub granted_by_user: UserInformationView,
}

impl View for SessionUserApiKey {
    type V = SessionUserApiKeyView;

    open spec fn view(&self) -> SessionUserApiKeyView {
        SessionUserApiKeyView {
            id: self.id,
            requested_by_user: self.requested_by_user@,
            granted_by_user: self.granted_by_user@,
        }
    }
}

/// The outcome of an installation: its token, the client's keys and the provider's key.
#[derive(Clone, Debug)]
pub struct InstallationContext {
    pub token: String,
    pub private_key_client: String,
    pub public_key_client: String,
    pub public_key_server: String,
}

pub struct InstallationContextView {
    pub token: Seq<char>,
    pub private_key_client: Seq<char>,
    pub public_key_client: Seq<char>,
    pub public_key_server: Seq<char>,
}

impl View for InstallationContext {
    type V = InstallationContextView;

    open spec fn view(&self) -> InstallationContextView {
        InstallationContextView {
            token: self.token@,
            private_key_client: self.private_key_client@,
            public_key_client: self.public_key_client@,
            public_key_server: self.public_key_server@,
        }
    }
}

/// A session: its token, the second (Unix time) until which it is valid, and its user.
#[derive(Clone, Debug)]
pub struct SessionContext {
    pub token: String,
    pub valid_until: i64,
    pub user_id: u64,
    pub user_api_key: SessionUserApiKey,
}

pub struct SessionContextView {
    pub token: Seq<char>,
    pub valid_until: i64,
    pub user_id: u64,
    pub user_api_key: SessionUserApiKeyView,
}

impl View for SessionContext {
    type V = SessionContextView;

    open spec fn view(&self) -> SessionContextView {
        SessionContextView {
            token: self.token@,
            valid_until: self.valid_until,
            user_id: self.user_id,
            user_api_key: self.user_api_key@,
        }
    }
}

/// The complete credential bundle.
#[derive(Clone, Debug)]
pub struct ApiContext {
    pub api_key: String,
    pub environment: Environment,
    pub installation_context: InstallationContext,
    pub session_context: SessionContext,
}

pub struct ApiContextView {
    pub api_key: Seq<char>,
    pub environment: Environment,
    pub installation_context: InstallationContextView,
    pub session_context: SessionContextView,
}

impl View for ApiContext {
    type V = ApiContextView;

    open spec fn view(&self) -> ApiContextView {
        ApiContextView {
            api_key: self.api_key@,
            environment: self.environment,
            installation_context: self.installation_context@,
            session_context: self.session_context@,
        }
    }
}

/// Whether two texts hold the same characters.
pub fn str_equal(a: &str, b: &str) -> (r: bool)
    ensures
        r == (a@ == b@),
{
    let n = a.unicode_len();
    if n != b.unicode_len() {
        return false;
    }
    let mut i: usize = 0;
    while i < n
        invariant
            n == a@.len() == b@.len(),
            i <= n,
            forall|j: int| 0 <= j < i ==> a@[j] == b@[j],
        decreases n - i,
    {
        if a.get_char(i) != b.get_char(i) {
            return false;
        }
        i += 1;
    }
    assert(a@ =~= b@);
    true
}

/// The environment that a name stands for, among the accepted spellings.
pub open spec fn environment_of(s: Seq<char>) -> Option<Environment> {
    if s == "SANDBOX"@ || s == "sandbox"@ || s == ""@ || s == "sb"@ {
        Some(Environment::SANDBOX)
    } else if s == "PRODUCTION"@ || s == "production"@ || s == "prod"@ || s == "PROD"@ {
        Some(Environment::PRODUCTION)
    } else {
        None
    }
}

impl Environment {
    pub open spec fn name_spec(self) -> Seq<char> {
        match self {
            Environment::SANDBOX => "SANDBOX"@,
            Environment::PRODUCTION => "PRODUCTION"@,
        }
    }

    /// The environment's canonical name.
    pub fn as_str(self) -> (r: &'static str)
        ensures
            r@ == self.name_spec(),
    {
        match self {
            Environment::SANDBOX => "SANDBOX",
            Environment::PRODUCTION => "PRODUCTION",
        }
    }

    /// Reads an environment name; any other text is an invalid environment.
    pub fn parse(s: &str) -> (r: Result<Environment, BunqyyError>)
        ensures
            environment_of(s@) matches Some(e) ==> r == Ok::<Environment, BunqyyError>(e),
            environment_of(s@) is None ==> (r matches Err(BunqyyError::InvalidEnvironment(t)) && t@ == s@),
    {
        if str_equal(s, "SANDBOX") || str_equal(s, "sandbox") || str_equal(s, "")
            || str_equal(s, "sb") {
            Ok(Environment::SANDBOX)
        } else if str_equal(s, "PRODUCTION") || str_equal(s, "production") || str_equal(s, "prod")
            || str_equal(s, "PROD") {
            Ok(Environment::PRODUCTION)
        } else {
            Err(BunqyyError::InvalidEnvironment(s.to_owned()))
        }
    }
}

impl std::str::FromStr for Environment {
    type Err = BunqyyError;

    fn from_str(s: &str) -> Result<Environment, BunqyyError> {
        Environment::parse(s)
    }
}

/// The endpoints of the handshake.
#[derive(Clone, Debug)]
pub enum Endpoints {
    Installation,
    DeviceServer,
    SessionServer,
}

impl Endpoints {
    pub open spec fn path_spec(self) -> Seq<char> {
        match self {
            Endpoints::Installation => "/installation"@,
            Endpoints::DeviceServer => "/device-server"@,
            Endpoints::SessionServer => "/session-server"@,
        }
    }

    /// The endpoint's URL under the base URL `base`.
    pub fn url(self, base: &str) -> (r: String)
        ensures
            r@ == base@ + self.path_spec(),
    {
        let path = match self {
            Endpoints::Installation => "/installation",
            Endpoints::DeviceServer => "/device-server",
            Endpoints::SessionServer => "/session-server",
        };
        base.to_owned().concat(path)
    }
}

impl UserInformation {
    /// A copy with the same fields.
    pub fn duplicate(&self) -> (r: UserInformation)
        ensures
            r@ == self@,
    {
        UserInformation {
            id: self.id,
            display_name: self.display_name.clone(),
            public_nick_name: self.public_nick_name.clone(),
            session_timeout: self.session_timeout,
        }
    }
}

impl SessionUserApiKey {
    /// A copy with the same fields.
    pub fn duplicate(&self) -> (r: SessionUserApiKey)
        ensures
            r@ == self@,
    {
        SessionUserApiKey {
            id: self.id,
            requested_by_user: self.requested_by_user.duplicate(),
            granted_by_user: self.granted_by_user.duplicate(),
        }
    }
}

/// A session needs to be refreshed from ten seconds before it runs out.
pub open spec fn needs_refresh_spec(valid_until: i64, now: i64) -> bool {
    now + 10 >= valid_until
}

/// Refresh boundary: a session valid for eleven more seconds is kept, one
/// valid for nine more is refreshed, and one valid for exactly ten more is
/// refreshed too.
pub proof fn refresh_threshold(now: i64)
    requires
        now + 11 <= i64::MAX,
    ensures
        !needs_refresh_spec((now + 11) as i64, now),
        needs_refresh_spec((now + 9) as i64, now),
        needs_refresh_spec((now + 10) as i64, now),
{
}

/// A negotiated session is valid for the requesting user's session timeout
/// from the moment its answer was taken, up to the last representable second.
pub proof fn session_valid_for_timeout(entries: Seq<ResponseEntryView>, now: i64)
    requires
        session_from(entries, now) is Some,
    ensures
        first_entry(entries, EntryKind::UserApiKey) matches Some(ResponseEntryView::UserApiKey(k))
            && (now + k.requested_by_user.session_timeout <= i64::MAX ==> session_from(entries, now)->Some_0.valid_until
            == now + k.requested_by_user.session_timeout),
        session_from(entries, now)->Some_0.valid_until >= now,
{
}

/// The session timeout of the requesting user in the first `UserApiKey` entry.
pub open spec fn requested_timeout(entries: Seq<ResponseEntryView>) -> int {
    first_entry(entries, EntryKind::UserApiKey)->Some_0->UserApiKey_0.requested_by_user.session_timeout as int
}

/// A session negotiated at any moment between `t0` and `t1` runs out between
/// `t0` and `t1` plus the requesting user's session timeout, where that sum
/// is representable.
pub proof fn session_expiry_between(entries: Seq<ResponseEntryView>, t0: i64, now: i64, t1: i64)
    requires
        session_from(entries, now) is Some,
        t0 <= now <= t1,
        t1 + requested_timeout(entries) <= i64::MAX,
    ensures
        t0 + requested_timeout(entries) <= session_from(entries, now)->Some_0.valid_until <= t1
            + requested_timeout(entries),
{
}

impl SessionContext {
    /// Whether the session, at the Unix time `now`, is within ten seconds of
    /// running out, or has run out. The caller reads the clock.
    pub fn needs_to_be_refreshed(&self, now: i64) -> (r: bool)
        ensures
            r == needs_refresh_spec(self.valid_until, now),
    {
        now as i128 + 10 >= self.valid_until as i128
    }
}

impl ApiContext {
    /// The same bundle with its session replaced by `session_context`.
    pub fn with_session_context(self, session_context: SessionContext) -> (r: ApiContext)
        ensures
            r@ == (ApiContextView { session_context: session_context@, ..self@ }),
    {
        ApiContext {
            api_key: self.api_key,
            environment: self.environment,
            installation_context: self.installation_context,
            session_context,
        }
    }
}

/// Collects the parts of a bundle while the handshake runs.
#[derive(Clone, Debug)]
pub struct ContextBuilder {
    pub environment: Environment,
    pub api_key: Option<String>,
    pub installation_context: Option<InstallationContext>,
    pub device_id: Option<u64>,
    pub session_context: Option<SessionContext>,
}

impl ContextBuilder {
    /// An empty builder for `environment`.
    pub fn new_for_environment(environment: Environment) -> (r: ContextBuilder)
        ensures
            r.environment == environment,
            r.api_key is None,
            r.installation_context is None,
            r.device_id is None,
            r.session_context is None,
    {
        ContextBuilder {
            environment,
            api_key: None,
            installation_context: None,
            device_id: None,
            session_context: None,
        }
    }

    pub fn set_access_token(&mut self, access_token: String)
        ensures
            final(self).api_key matches Some(k) && k@ == access_token@,
            final(self).environment == old(self).environment,
            final(self).installation_context == old(self).installation_context,
            final(self).device_id == old(self).device_id,
            final(self).session_context == old(self).session_context,
    {
        self.api_key = Some(access_token);
    }

    pub fn set_installation_context(&mut self, installation_context: InstallationContext)
        ensures
            final(self).installation_context matches Some(c) && c@ == installation_context@,
            final(self).environment == old(self).environment,
            final(self).api_key == old(self).api_key,
            final(self).device_id == old(self).device_id,
            final(self).session_context == old(self).session_context,
    {
        self.installation_context = Some(installation_context);
    }

    pub fn set_device_id(&mut self, device_id: u64)
        ensures
            final(self).device_id == Some(device_id),
            final(self).environment == old(self).environment,
            final(self).api_key == old(self).api_key,
            final(self).installation_context == old(self).installation_context,
            final(self).session_context == old(self).session_context,
    {
        self.device_id = Some(device_id);
    }

    pub fn set_session_context(&mut self, session_context: SessionContext)
        ensures
            final(self).session_context matches Some(c) && c@ == session_context@,
            final(self).environment == old(self).environment,
            final(self).api_key == old(self).api_key,
            final(self).installation_context == old(self).installation_context,
            final(self).device_id == old(self).device_id,
    {
        self.session_context = Some(session_context);
    }

    /// The bundle, when the access token, the installation and the session
    /// are all there; the device id is not part of it.
    pub fn build(self) -> (r: Result<ApiContext, BunqyyError>)
        ensures
            (self.api_key is Some && self.installation_context is Some
                && self.session_context is Some) ==> (r matches Ok(c) && c@ == ApiContextView {
                api_key: self.api_key->Some_0@,
                environment: self.environment,
                installation_context: self.installation_context->Some_0@,
                session_context: self.session_context->Some_0@,
            }),
            (self.api_key is None || self.installation_context is None
                || self.session_context is None) ==> (r matches Err(e) && e is MissingDataToBuildApiContext),
    {
        match (self.api_key, self.installation_context, self.session_context) {
            (Some(api_key), Some(installation_context), Some(session_context)) => Ok(ApiContext {
                api_key,
                environment: self.environment,
                installation_context,
                session_context,
            }),
            _ => Err(BunqyyError::MissingDataToBuildApiContext),
        }
    }
}

/// The name under which this client registers its device.
pub const DEVICE_DESCRIPTION: &'static str = "bunqyy";

/// A request of the handshake: its body, and the values of the
/// authentication and signature headers that go with it.
#[derive(Clone, Debug)]
pub struct SignedRequest {
    pub body: String,
    pub authentication: Option<String>,
    pub signature: Option<String>,
}

/// The body of an installation: the client's public key.
pub open spec fn installation_body(public_key_pem: Seq<char>) -> JsonModel {
    JsonModel::Object(Map::empty().insert("client_public_key"@, JsonModel::Text(public_key_pem)))
}

/// The body of a device registration: the client's name, the access token,
/// and no permitted addresses, so that the provider takes the caller's own.
pub open spec fn device_server_body(api_key: Seq<char>) -> JsonModel {
    JsonModel::Object(
        Map::empty().insert("description"@, JsonModel::Text(DEVICE_DESCRIPTION@)).insert(
            "secret"@,
            JsonModel::Text(api_key),
        ).insert("permitted_ips"@, JsonModel::List(Seq::empty())),
    )
}

/// The body of a session negotiation: the access token.
pub open spec fn session_server_body(api_key: Seq<char>) -> JsonModel {
    JsonModel::Object(Map::empty().insert("secret"@, JsonModel::Text(api_key)))
}

/// The installation request for a key pair; it is neither authenticated nor signed.
pub fn installation_request(keypair: &KeyPair) -> (r: SignedRequest)
    ensures
        json_parse(r.body@) == Some(installation_body(keypair.public_key_pem@)),
        r.authentication is None,
        r.signature is None,
{
    let mut body = json_empty_object();
    object_insert(&mut body, "client_public_key", json_from_text(keypair.public_key_pem.as_str()), Ghost(63));
    SignedRequest { body: json_to_text(&body), authentication: None, signature: None }
}

/// `q` is authenticated with `token` and carries the signature of its body's
/// UTF-8 bytes under the key in `private_key_pem`.
pub open spec fn signed_with(q: SignedRequest, token: Seq<char>, private_key_pem: Seq<char>) -> bool {
    &&& q.authentication is Some
    &&& q.authentication->Some_0@ == token
    &&& q.signature is Some
    &&& q.signature->Some_0@ == signature_text(private_key_pem, encode_utf8(q.body@))
}

/// Signs `body` and pairs it with the installation token.
fn signed_request(body: String, installation_token: &str, signer: Signer) -> (r: Result<SignedRequest, BunqyyError>)
    ensures
        r is Ok <==> can_sign(signer.private_key_pem@),
        r matches Ok(q) ==> q.body@ == body@,
        r matches Ok(q) ==> signed_with(q, installation_token@, signer.private_key_pem@),
        r matches Err(e) ==> e is InvalidPrivateKey,
{
    let signature = signer.sign(body.as_str().as_bytes())?;
    Ok(SignedRequest { body, authentication: Some(installation_token.to_owned()), signature: Some(signature) })
}

/// The device registration request: authenticated with the installation
/// token, signed with the installation's private key.
pub fn device_server_request(api_key: &str, installation_token: &str, signer: Signer) -> (r: Result<SignedRequest, BunqyyError>)
    ensures
        r is Ok <==> can_sign(signer.private_key_pem@),
        r matches Ok(q) ==> json_parse(q.body@) == Some(device_server_body(api_key@)),
        r matches Ok(q) ==> signed_with(q, installation_token@, signer.private_key_pem@),
        r matches Err(e) ==> e is InvalidPrivateKey,
{
    let mut body = json_empty_object();
    object_insert(&mut body, "description", json_from_text(DEVICE_DESCRIPTION), Ghost(63));
    object_insert(&mut body, "secret", json_from_text(api_key), Ghost(63));
    object_insert(&mut body, "permitted_ips", json_empty_list(), Ghost(63));
    signed_request(json_to_text(&body), installation_token, signer)
}

/// The session negotiation request: authenticated with the installation
/// token, signed with the installation's private key.
pub fn session_server_request(api_key: &str, installation_token: &str, signer: Signer) -> (r: Result<SignedRequest, BunqyyError>)
    ensures
        r is Ok <==> can_sign(signer.private_key_pem@),
        r matches Ok(q) ==> json_parse(q.body@) == Some(session_server_body(api_key@)),
        r matches Ok(q) ==> signed_with(q, installation_token@, signer.private_key_pem@),
        r matches Err(e) ==> e is InvalidPrivateKey,
{
    let mut body = json_empty_object();
    object_insert(&mut body, "secret", json_from_text(api_key), Ghost(63));
    signed_request(json_to_text(&body), installation_token, signer)
}

/// The entries of the success envelope in a response text.
pub open spec fn success_of(text: Seq<char>) -> Option<Seq<ResponseEntryView>> {
    match response_content_spec(text) {
        Some(BunqResponseView::Success(entries)) => Some(entries),
        _ => None,
    }
}

/// The error owed for a response text that holds no success envelope: the
/// provider's errors, all of them, or else a deserialization error.
pub open spec fn failure_of(text: Seq<char>, e: BunqyyError) -> bool {
    match response_content_spec(text) {
        Some(BunqResponseView::Error(es)) => e matches BunqyyError::ProviderError(v)
            && v@.map_values(|x: BunqError| x@) == es,
        _ => e is ResponseDeserialization,
    }
}

/// The entries of the success envelope in `response`.
pub fn success_entries(response: &str) -> (r: Result<Vec<ResponseEntry>, BunqyyError>)
    ensures
        success_of(response@) matches Some(entries) ==> (r matches Ok(v)
            && v@.map_values(|x: ResponseEntry| x@) == entries),
        success_of(response@) is None ==> (r matches Err(e) && failure_of(response@, e)),
{
    match process_response_content(response)? {
        BunqResponse::Success(s) => Ok(s.response),
        BunqResponse::Error(e) => Err(BunqyyError::ProviderError(e.error)),
    }
}

/// The installation that the entries of a response make with `keys`.
pub open spec fn installation_from(entries: Seq<ResponseEntryView>, keys: KeyPair) -> Option<InstallationContextView> {
    match (first_entry(entries, EntryKind::Token), first_entry(entries, EntryKind::ServerPublicKey)) {
        (Some(ResponseEntryView::Token(t)), Some(ResponseEntryView::ServerPublicKey(k))) => Some(
            InstallationContextView {
                token: t,
                private_key_client: keys.private_key_pem@,
                public_key_client: keys.public_key_pem@,
                public_key_server: k,
            },
        ),
        _ => None,
    }
}

/// No entry of the variant `kind` means that a search for one finds none.
proof fn lemma_first_entry_absent(entries: Seq<ResponseEntryView>, kind: EntryKind)
    requires
        forall|i: int| 0 <= i < entries.len() ==> !kind_matches(#[trigger] entries[i], kind),
    ensures
        first_entry(entries, kind) is None,
    decreases entries.len(),
{
    if entries.len() > 0 {
        assert(!kind_matches(entries[0], kind));
        assert forall|i: int| 0 <= i < entries.drop_first().len() implies !kind_matches(
            #[trigger] entries.drop_first()[i],
            kind,
        ) by {
            assert(entries.drop_first()[i] == entries[i + 1]);
        }
        lemma_first_entry_absent(entries.drop_first(), kind);
    }
}

/// An installation answer without a `ServerPublicKey` entry yields no
/// installation, whatever else it holds: the handshake stops there with a
/// missing variant, before any bundle exists to be stored.
pub proof fn installation_needs_server_key(entries: Seq<ResponseEntryView>, keys: KeyPair)
    requires
        forall|i: int| 0 <= i < entries.len() ==> !(#[trigger] entries[i] is ServerPublicKey),
    ensures
        installation_from(entries, keys) is None,
{
    assert forall|i: int| 0 <= i < entries.len() implies !kind_matches(
        #[trigger] entries[i],
        EntryKind::ServerPublicKey,
    ) by {}
    lemma_first_entry_absent(entries, EntryKind::ServerPublicKey);
}

/// The installation from the provider's answer to an installation request
/// and the key pair whose public key that request carried.
pub fn installation_context_from_response(response: &str, keypair: &KeyPair) -> (r: Result<InstallationContext, BunqyyError>)
    ensures
        success_of(response@) is None ==> (r matches Err(e) && failure_of(response@, e)),
        success_of(response@) matches Some(entries) ==> match installation_from(entries, *keypair) {
            Some(c) => r matches Ok(x) && x@ == c,
            None => r matches Err(e) && e is MissingExpectedVariant,
        },
{
    let entries = success_entries(response)?;
    let token = match find_first(&entries, EntryKind::Token) {
        Some(ResponseEntry::Token(t)) => t.clone(),
        _ => return Err(BunqyyError::MissingExpectedVariant("Token".to_owned())),
    };
    let server_key = match find_first(&entries, EntryKind::ServerPublicKey) {
        Some(ResponseEntry::ServerPublicKey(k)) => k.clone(),
        _ => return Err(BunqyyError::MissingExpectedVariant("ServerPublicKey".to_owned())),
    };
    Ok(InstallationContext {
        token,
        private_key_client: keypair.private_key_pem.clone(),
        public_key_client: keypair.public_key_pem.clone(),
        public_key_server: server_key,
    })
}

/// The device id in the entries of a response.
pub open spec fn device_id_from(entries: Seq<ResponseEntryView>) -> Option<u64> {
    match first_entry(entries, EntryKind::Id) {
        Some(ResponseEntryView::Id(id)) => Some(id),
        _ => None,
    }
}

/// The device id from the provider's answer to a device registration.
pub fn device_id_from_response(response: &str) -> (r: Result<u64, BunqyyError>)
    ensures
        success_of(response@) is None ==> (r matches Err(e) && failure_of(response@, e)),
        success_of(response@) matches Some(entries) ==> match device_id_from(entries) {
            Some(id) => r matches Ok(x) && x == id,
            None => r matches Err(e) && e is MissingExpectedVariant,
        },
{
    let entries = success_entries(response)?;
    match find_first(&entries, EntryKind::Id) {
        Some(ResponseEntry::Id(id)) => Ok(*id),
        _ => Err(BunqyyError::MissingExpectedVariant("Id".to_owned())),
    }
}

/// `timeout` seconds after `now`, or the last representable second.
pub open spec fn expiry(now: i64, timeout: u64) -> i64 {
    if now + timeout > i64::MAX {
        i64::MAX
    } else {
        (now + timeout) as i64
    }
}

/// The session that the entries of a response make at the Unix time `now`:
/// valid for the requesting user's session timeout.
pub open spec fn session_from(entries: Seq<ResponseEntryView>, now: i64) -> Option<SessionContextView> {
    match (first_entry(entries, EntryKind::Token), first_entry(entries, EntryKind::UserApiKey)) {
        (Some(ResponseEntryView::Token(t)), Some(ResponseEntryView::UserApiKey(k))) => Some(
            SessionContextView {
                token: t,
                valid_until: expiry(now, k.requested_by_user.session_timeout),
                user_id: k.id,
                user_api_key: k,
            },
        ),
        _ => None,
    }
}

/// The session from the provider's answer to a session negotiation, received
/// at the Unix time `now`.
pub fn session_context_from_response(response: &str, now: i64) -> (r: Result<SessionContext, BunqyyError>)
    ensures
        success_of(response@) is None ==> (r matches Err(e) && failure_of(response@, e)),
        success_of(response@) matches Some(entries) ==> match session_from(entries, now) {
            Some(c) => r matches Ok(x) && x@ == c,
            None => r matches Err(e) && e is MissingExpectedVariant,
        },
{
    let entries = success_entries(response)?;
    let token = match find_first(&entries, EntryKind::Token) {
        Some(ResponseEntry::Token(t)) => t.clone(),
        _ => return Err(BunqyyError::MissingExpectedVariant("Token".to_owned())),
    };
    let key = match find_first(&entries, EntryKind::UserApiKey) {
        Some(ResponseEntry::UserApiKey(k)) => k.duplicate(),
        _ => return Err(BunqyyError::MissingExpectedVariant("UserApiKey".to_owned())),
    };
    let timeout = key.requested_by_user.session_timeout;
    let valid_until: i64 = if now as i128 + timeout as i128 > i64::MAX as i128 {
        i64::MAX
    } else {
        (now as i128 + timeout as i128) as i64
    };
    Ok(SessionContext { token, valid_until, user_id: key.id, user_api_key: key })
}

/// The session negotiation that refreshes the session of `context`: the
/// access token, signed with the installation's key, under the installation token.
pub fn refresh_request(context: &ApiContext) -> (r: Result<SignedRequest, BunqyyError>)
    ensures
        r is Ok <==> can_sign(context.installation_context.private_key_client@),
        r matches Ok(q) ==> json_parse(q.body@) == Some(session_server_body(context.api_key@)),
        r matches Ok(q) ==> signed_with(
            q,
            context.installation_context.token@,
            context.installation_context.private_key_client@,
        ),
        r matches Err(e) ==> e is InvalidPrivateKey,
{
    session_server_request(
        context.api_key.as_str(),
        context.installation_context.token.as_str(),
        create_signer(context.installation_context.private_key_client.clone()),
    )
}

/// Replaces the session of `api_context` with the one in the provider's
/// answer to a refresh, received at the Unix time `now`. On failure the
/// bundle stays as it was. Nothing here tells refreshes apart: two callers
/// that both saw a stale session both negotiate, and the later replacement wins.
pub fn refresh_session(api_context: &mut ApiContext, response: &str, now: i64) -> (r: Result<(), BunqyyError>)
    ensures
        r is Ok <==> (success_of(response@) is Some && session_from(success_of(response@)->Some_0, now) is Some),
        r is Ok ==> final(api_context)@ == (ApiContextView {
            session_context: session_from(success_of(response@)->Some_0, now)->Some_0,
            ..old(api_context)@
        }),
        r is Err ==> final(api_context)@ == old(api_context)@,
        success_of(response@) is None ==> (r matches Err(e) && failure_of(response@, e)),
        (success_of(response@) matches Some(entries) && session_from(entries, now) is None)
            ==> (r matches Err(e) && e is MissingExpectedVariant),
{
    let session = session_context_from_response(response, now)?;
    api_context.session_context = session;
    Ok(())
}

/// The stages of the handshake that builds a bundle.
#[derive(Clone, Debug)]
pub enum BootstrapStage {
    /// The installation request has gone out.
    Installing,
    /// The device registration request has gone out.
    RegisteringDevice,
    /// The session negotiation request has gone out.
    CreatingSession,
}

/// The private key signs and the public key is its own.
pub open spec fn key_pair_fits(private_key_pem: Seq<char>, public_key_pem: Seq<char>) -> bool {
    can_sign(private_key_pem) && public_key_pem == rsa_public_pem_of(private_key_pem)
}

/// The installation's client keys are a pair whose private key signs.
pub open spec fn installation_fits(c: InstallationContext) -> bool {
    key_pair_fits(c.private_key_client@, c.public_key_client@)
}

/// A handshake in progress: what it has gathered, and the request it waits on.
#[derive(Clone, Debug)]
pub struct Bootstrap {
    pub stage: BootstrapStage,
    pub builder: ContextBuilder,
    pub keypair: Option<KeyPair>,
}

impl Bootstrap {
    /// Whether the gathered parts fit the stage: the key pair until the
    /// installation is there, then the installation, then the device id too.
    pub open spec fn wf(&self) -> bool {
        &&& self.builder.api_key is Some
        &&& self.builder.session_context is None
        &&& match self.stage {
            BootstrapStage::Installing => self.keypair is Some
                && self.builder.installation_context is None
                && key_pair_fits(self.keypair->Some_0.private_key_pem@, self.keypair->Some_0.public_key_pem@),
            BootstrapStage::RegisteringDevice => self.builder.installation_context is Some
                && installation_fits(self.builder.installation_context->Some_0),
            BootstrapStage::CreatingSession => self.builder.installation_context is Some
                && installation_fits(self.builder.installation_context->Some_0)
                && self.builder.device_id is Some,
        }
    }

    /// Starts a handshake for `environment` with the access token `api_key`:
    /// a fresh key pair, and the installation request that carries its public key.
    pub fn start(environment: Environment, api_key: String) -> (r: Result<(Bootstrap, SignedRequest), BunqyyError>)
        ensures
            r matches Ok((b, q)) ==> b.wf() && b.stage is Installing && b.builder.environment == environment
                && b.builder.api_key->Some_0@ == api_key@
                && rsa_modulus_bytes(b.keypair->Some_0.private_key_pem@) == 256
                && json_parse(q.body@) == Some(installation_body(b.keypair->Some_0.public_key_pem@))
                && q.authentication is None && q.signature is None,
            r matches Err(e) ==> e is KeyGeneration,
    {
        let keypair = generate_keypair()?;
        let request = installation_request(&keypair);
        let mut builder = ContextBuilder::new_for_environment(environment);
        builder.set_access_token(api_key);
        Ok((Bootstrap { stage: BootstrapStage::Installing, builder, keypair: Some(keypair) }, request))
    }

    /// Takes the answer to the installation request; on success the
    /// installation is kept and the device registration request comes back.
    pub fn on_installation_response(&mut self, response: &str) -> (r: Result<SignedRequest, BunqyyError>)
        requires
            old(self).wf(),
            old(self).stage is Installing,
        ensures
            r is Ok ==> final(self).wf() && final(self).stage is RegisteringDevice,
            r is Ok ==> (success_of(response@) matches Some(entries)
                && installation_from(entries, old(self).keypair->Some_0) == Some(
                final(self).builder.installation_context->Some_0@,
            )),
            r matches Ok(q) ==> json_parse(q.body@) == Some(device_server_body(old(self).builder.api_key->Some_0@))
                && signed_with(
                q,
                final(self).builder.installation_context->Some_0.token@,
                final(self).builder.installation_context->Some_0.private_key_client@,
            ),
            success_of(response@) is None ==> (r matches Err(e) && failure_of(response@, e)),
            (success_of(response@) matches Some(entries)
                && installation_from(entries, old(self).keypair->Some_0) is None)
                ==> (r matches Err(e) && e is MissingExpectedVariant),
            (success_of(response@) matches Some(entries)
                && installation_from(entries, old(self).keypair->Some_0) is Some) ==> r is Ok,
            r is Err ==> *final(self) == *old(self),
            final(self).builder.api_key == old(self).builder.api_key,
            final(self).builder.environment == old(self).builder.environment,
    {
        let installation = installation_context_from_response(response, self.keypair.as_ref().unwrap())?;
        let api_key = self.builder.api_key.as_ref().unwrap().clone();
        let request = device_server_request(
            api_key.as_str(),
            installation.token.as_str(),
            create_signer(installation.private_key_client.clone()),
        )?;
        self.builder.set_installation_context(installation);
        self.stage = BootstrapStage::RegisteringDevice;
        Ok(request)
    }

    /// Takes the answer to the device registration; on success the device id
    /// is noted and the session negotiation request comes back.
    pub fn on_device_response(&mut self, response: &str) -> (r: Result<SignedRequest, BunqyyError>)
        requires
            old(self).wf(),
            old(self).stage is RegisteringDevice,
        ensures
            r is Ok ==> final(self).wf() && final(self).stage is CreatingSession,
            r is Ok ==> (success_of(response@) matches Some(entries)
                && device_id_from(entries) == final(self).builder.device_id),
            r matches Ok(q) ==> json_parse(q.body@) == Some(session_server_body(old(self).builder.api_key->Some_0@))
                && signed_with(
                q,
                old(self).builder.installation_context->Some_0.token@,
                old(self).builder.installation_context->Some_0.private_key_client@,
            ),
            success_of(response@) is None ==> (r matches Err(e) && failure_of(response@, e)),
            (success_of(response@) matches Some(entries) && device_id_from(entries) is None)
                ==> (r matches Err(e) && e is MissingExpectedVariant),
            (success_of(response@) matches Some(entries) && device_id_from(entries) is Some) ==> r is Ok,
            r is Err ==> *final(self) == *old(self),
            final(self).builder.api_key == old(self).builder.api_key,
            final(self).builder.environment == old(self).builder.environment,
            final(self).builder.installation_context == old(self).builder.installation_context,
    {
        let device_id = device_id_from_response(response)?;
        let api_key = self.builder.api_key.as_ref().unwrap();
        let installation = self.builder.installation_context.as_ref().unwrap();
        let request = session_server_request(
            api_key.as_str(),
            installation.token.as_str(),
            create_signer(installation.private_key_client.clone()),
        )?;
        self.builder.set_device_id(device_id);
        self.stage = BootstrapStage::CreatingSession;
        Ok(request)
    }

    /// Takes the answer to the session negotiation, received at the Unix
    /// time `now`; on success the bundle is complete.
    pub fn on_session_response(self, response: &str, now: i64) -> (r: Result<ApiContext, BunqyyError>)
        requires
            self.wf(),
            self.stage is CreatingSession,
        ensures
            (success_of(response@) matches Some(entries) && session_from(entries, now) is Some)
                ==> (r matches Ok(c) && c@ == ApiContextView {
                api_key: self.builder.api_key->Some_0@,
                environment: self.builder.environment,
                installation_context: self.builder.installation_context->Some_0@,
                session_context: session_from(success_of(response@)->Some_0, now)->Some_0,
            }),
            success_of(response@) is None ==> (r matches Err(e) && failure_of(response@, e)),
            (success_of(response@) matches Some(entries) && session_from(entries, now) is None)
                ==> (r matches Err(e) && e is MissingExpectedVariant),
    {
        let session = session_context_from_response(response, now)?;
        let mut builder = self.builder;
        builder.set_session_context(session);
        builder.build()
    }
}

} // verus!
