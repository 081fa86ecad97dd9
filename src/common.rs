//! Errors and the settings that the handshake starts from.
use vstd::prelude::*;
use vstd::string::*;
use crate::api_context::Environment;
use crate::http::BunqError;

verus! {

/// The host and version prefix of every endpoint of the provider. The same
/// host serves both environments: a bundle's environment does not pick it.
pub const BUNQ_BASE_URL: &'static str = "https://api.bunq.com/v1";

/// What can go wrong while the credential bundle is built, stored or used.
#[derive(Clone, Debug)]
pub enum BunqyyError {
    /// An environment name that is none of the known spellings.
    InvalidEnvironment(String),
    /// The transport failed before a response came back.
    Request(String),
    /// A response or a stored bundle is not in the expected shape.
    ResponseDeserialization(String),
    /// A successful envelope lacks an entry of the named variant.
    MissingExpectedVariant(String),
    /// The provider answered with its error envelope; every entry is kept.
    ProviderError(Vec<BunqError>),
    /// A bundle was to be built before all of its parts were there.
    MissingDataToBuildApiContext,
    /// A private key could not be read or could not sign.
    InvalidPrivateKey,
    /// No key pair could be generated.
    KeyGeneration,
}

/// Where and for which environment the handshake runs, and the OAuth client it uses.
#[derive(Clone, Debug)]
pub struct SetupContext {
    pub environment: Environment,
    pub client_id: String,
    pub client_secret: String,
    pub storage_path: String,
}

impl SetupContext {
    pub fn new(
        environment: Environment,
        client_id: String,
        client_secret: String,
        storage_path: String,
    ) -> (r: SetupContext)
        ensures
            r.environment == environment,
            r.client_id@ == client_id@,
            r.client_secret@ == client_secret@,
            r.storage_path@ == storage_path@,
    {
        SetupContext { environment, client_id, client_secret, storage_path }
    }
}

/// The texts of `parts`, separated by `; `.
pub open spec fn joined(parts: Seq<Seq<char>>) -> Seq<char>
    decreases parts.len(),
{
    if parts.len() == 0 {
        Seq::empty()
    } else if parts.len() == 1 {
        parts[0]
    } else {
        joined(parts.drop_last()) + "; "@ + parts.last()
    }
}

impl BunqyyError {
    pub open spec fn message_spec(&self) -> Seq<char> {
        match self {
            BunqyyError::InvalidEnvironment(e) => "Invalid environment: "@ + e@,
            BunqyyError::Request(e) => "Request error: "@ + e@,
            BunqyyError::ResponseDeserialization(e) => "Response deserialization error: "@ + e@,
            BunqyyError::MissingExpectedVariant(v) => "Missing expected variant: "@ + v@,
            BunqyyError::ProviderError(es) => "Provider error: "@ + joined(
                es@.map_values(|x: BunqError| x.error_description_translated@),
            ),
            BunqyyError::MissingDataToBuildApiContext => "Missing data to build api context"@,
            BunqyyError::InvalidPrivateKey => "Invalid private key"@,
            BunqyyError::KeyGeneration => "Key generation failed"@,
        }
    }

    /// A message for people: what went wrong, with the provider's own
    /// translated descriptions where it sent errors.
    pub fn message(&self) -> (r: String)
        ensures
            r@ == self.message_spec(),
    {
        match self {
            BunqyyError::InvalidEnvironment(e) => "Invalid environment: ".to_owned().concat(e.as_str()),
            BunqyyError::Request(e) => "Request error: ".to_owned().concat(e.as_str()),
            BunqyyError::ResponseDeserialization(e) => "Response deserialization error: ".to_owned().concat(
                e.as_str(),
            ),
            BunqyyError::MissingExpectedVariant(v) => "Missing expected variant: ".to_owned().concat(v.as_str()),
            BunqyyError::ProviderError(es) => {
                let ghost parts = es@.map_values(|x: BunqError| x.error_description_translated@);
                let mut acc = String::new();
                let mut i: usize = 0;
                while i < es.len()
                    invariant
                        i <= es@.len(),
                        parts == es@.map_values(|x: BunqError| x.error_description_translated@),
                        acc@ == joined(parts.take(i as int)),
                    decreases es@.len() - i,
                {
                    assert(parts.take(i + 1).drop_last() =~= parts.take(i as int));
                    if i > 0 {
                        acc.append("; ");
                    } else {
                        assert(joined(parts.take(0)) == Seq::<char>::empty());
                        assert(acc@ + parts[0] =~= parts[0]);
                    }
                    acc.append(es[i].error_description_translated.as_str());
                    i += 1;
                }
                assert(parts.take(es@.len() as int) =~= parts);
                "Provider error: ".to_owned().concat(acc.as_str())
            },
            BunqyyError::MissingDataToBuildApiContext => "Missing data to build api context".to_owned(),
            BunqyyError::InvalidPrivateKey => "Invalid private key".to_owned(),
            BunqyyError::KeyGeneration => "Key generation failed".to_owned(),
        }
    }
}

} // verus!
