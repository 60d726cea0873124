//! Settings of the service and the identity-provider addresses derived from
//! them.
use vstd::prelude::*;

use vstd::string::StringExecFns;

verus! {

/// Connection settings of the document store.
pub struct Database {
    pub pguser: String,
    pub pgpassword: String,
    pub pghost: String,
    pub pgport: u16,
    pub pgdatabase: String,
}

/// The identity provider: a Cognito user pool and the client tokens are
/// issued for.
pub struct Auth {
    pub cognito_client_id: String,
    pub cognito_pool_id: String,
    pub cognito_identity_pool_id: String,
    pub cognito_aws_region: String,
}

/// Settings of the whole service.
pub struct Config {
    pub database: Database,
    pub app_port: u16,
    pub auth: Auth,
    pub env: String,
}

/// Settings handed to the browser client.
pub struct ClientConfig {
    pub env: String,
    pub ion_default_access_token: String,
    pub gst_url: String,
    pub auth: Auth,
}

/// The identity provider as named by region, client and pool.
pub struct CognitoConfig {
    pub awsregion: String,
    pub clientid: String,
    pub poolid: String,
}

/// The issuer URL of a user pool.
pub open spec fn issuer_of(region: Seq<char>, pool: Seq<char>) -> Seq<char> {
    "https://cognito-idp."@ + region + ".amazonaws.com/"@ + pool
}

/// Where a user pool publishes its key set.
pub open spec fn jwks_url_of(region: Seq<char>, pool: Seq<char>) -> Seq<char> {
    issuer_of(region, pool) + "/.well-known/jwks.json"@
}

fn issuer_url(region: &String, pool: &String) -> (r: String)
    ensures
        r@ == issuer_of(region@, pool@),
{
    let mut s = String::from_str("https://cognito-idp.");
    s.append(region.as_str());
    s.append(".amazonaws.com/");
    s.append(pool.as_str());
    s
}

fn key_set_url(region: &String, pool: &String) -> (r: String)
    ensures
        r@ == jwks_url_of(region@, pool@),
{
    let mut s = issuer_url(region, pool);
    s.append("/.well-known/jwks.json");
    s
}

impl Auth {
    /// The issuer tokens must name.
    pub fn issuer(&self) -> (r: String)
        ensures
            r@ == issuer_of(self.cognito_aws_region@, self.cognito_pool_id@),
    {
        issuer_url(&self.cognito_aws_region, &self.cognito_pool_id)
    }

    /// The audience tokens must name: the client id.
    pub fn audience(&self) -> (r: String)
        ensures
            r@ == self.cognito_client_id@,
    {
        self.cognito_client_id.clone()
    }

    /// Where the key set is fetched from.
    pub fn jwks_url(&self) -> (r: String)
        ensures
            r@ == jwks_url_of(self.cognito_aws_region@, self.cognito_pool_id@),
    {
        key_set_url(&self.cognito_aws_region, &self.cognito_pool_id)
    }
}

impl CognitoConfig {
    /// Where the key set is fetched from.
    pub fn jwks_url(&self) -> (r: String)
        ensures
            r@ == jwks_url_of(self.awsregion@, self.poolid@),
    {
        key_set_url(&self.awsregion, &self.poolid)
    }
}

} // verus!
