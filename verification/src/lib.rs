//! Resolution of authentication configuration for an Azure storage client.
//!
//! A caller builds a [`Config`] seed (possibly empty), gathers the relevant
//! environment values into an [`EnvValues`] snapshot, and calls
//! [`Config::resolve`], which merges the two under a fixed precedence order
//! per field and applies the public-cloud default for the authority host.
//! Reading the process environment and the federated token file is the
//! caller's job: the resolver itself is a pure merge, and its behaviour is
//! pinned down by [`spec_resolve`].

use vstd::prelude::*;

verus! {

/// Environment variable holding a federated token value directly.
pub const AZURE_FEDERATED_TOKEN: &'static str = "AZURE_FEDERATED_TOKEN";

/// Environment variable naming a file whose contents are the federated token.
pub const AZURE_FEDERATED_TOKEN_FILE: &'static str = "AZURE_FEDERATED_TOKEN_FILE";

/// Environment variable holding the tenant id.
pub const AZURE_TENANT_ID: &'static str = "AZURE_TENANT_ID_ENV_KEY";

/// Environment variable holding the authority host URL.
pub const AZURE_AUTHORITY_HOST_ENV_KEY: &'static str = "AZURE_AUTHORITY_HOST_ENV_KEY";

/// Default authority host, used when neither the seed nor the environment
/// provides one.
pub const AZURE_PUBLIC_CLOUD: &'static str = "https://login.microsoftonline.com";

/// Configuration for an Azure storage client.
///
/// Every field is independently optional: absence means "unset", not an
/// error. The static credential fields (`account_name` through `endpoint`)
/// are only ever supplied by the caller; [`Config::resolve`] never touches
/// them. The federated/workload-identity fields (`federated_token`,
/// `tenant_id`, `authority_host`) are additionally sourced from the
/// environment, which overrides the seed rather than merely filling it.
#[derive(Clone, Debug, PartialEq)]
pub struct Config {
    /// Storage account name, taken from this field alone.
    pub account_name: Option<String>,
    /// Storage account key, taken from this field alone.
    pub account_key: Option<String>,
    /// Shared access signature token, taken from this field alone.
    pub sas_token: Option<String>,
    /// Object id of a user-assigned managed identity resource.
    ///
    /// At most one of `object_id`, `client_id` and `msi_res_id` is
    /// meaningful; choosing among them is the caller's responsibility.
    pub object_id: Option<String>,
    /// Application (client) id of a user-assigned managed identity resource.
    pub client_id: Option<String>,
    /// ARM resource id of a user-assigned managed identity resource.
    pub msi_res_id: Option<String>,
    /// Header value used when retrieving a managed-identity access token.
    pub msi_secret: Option<String>,
    /// Endpoint from which a managed identity should be retrieved.
    pub endpoint: Option<String>,
    /// Federated token, sourced from this field, from
    /// [`AZURE_FEDERATED_TOKEN`], or from the file named by
    /// [`AZURE_FEDERATED_TOKEN_FILE`].
    pub federated_token: Option<String>,
    /// Tenant id, sourced from this field or from [`AZURE_TENANT_ID`].
    pub tenant_id: Option<String>,
    /// Authority host, sourced from [`AZURE_AUTHORITY_HOST_ENV_KEY`] or
    /// defaulted to [`AZURE_PUBLIC_CLOUD`]; never absent after resolution.
    pub authority_host: Option<String>,
}

/// Mathematical model of a [`Config`]: each field as an optional character
/// sequence.
pub struct ConfigView {
    pub account_name: Option<Seq<char>>,
    pub account_key: Option<Seq<char>>,
    pub sas_token: Option<Seq<char>>,
    pub object_id: Option<Seq<char>>,
    pub client_id: Option<Seq<char>>,
    pub msi_res_id: Option<Seq<char>>,
    pub msi_secret: Option<Seq<char>>,
    pub endpoint: Option<Seq<char>>,
    pub federated_token: Option<Seq<char>>,
    pub tenant_id: Option<Seq<char>>,
    pub authority_host: Option<Seq<char>>,
}

impl View for Config {
    type V = ConfigView;

    open spec fn view(&self) -> ConfigView {
        ConfigView {
            account_name: self.account_name.deep_view(),
            account_key: self.account_key.deep_view(),
            sas_token: self.sas_token.deep_view(),
            object_id: self.object_id.deep_view(),
            client_id: self.client_id.deep_view(),
            msi_res_id: self.msi_res_id.deep_view(),
            msi_secret: self.msi_secret.deep_view(),
            endpoint: self.endpoint.deep_view(),
            federated_token: self.federated_token.deep_view(),
            tenant_id: self.tenant_id.deep_view(),
            authority_host: self.authority_host.deep_view(),
        }
    }
}

/// Outcome of consulting the token-file environment variable: either the
/// variable was unset, or it named a file that was read in full, or it named
/// a file that could not be read.
#[derive(Clone, Debug, PartialEq)]
pub enum TokenFile {
    /// The token-file environment variable was not set.
    Unset,
    /// The variable was set and the named file was read; these are its
    /// contents.
    Contents(String),
    /// The variable was set but the named file could not be read.
    Unreadable,
}

/// Mathematical model of a [`TokenFile`].
pub enum TokenFileView {
    Unset,
    Contents(Seq<char>),
    Unreadable,
}

impl View for TokenFile {
    type V = TokenFileView;

    open spec fn view(&self) -> TokenFileView {
        match self {
            TokenFile::Unset => TokenFileView::Unset,
            TokenFile::Contents(s) => TokenFileView::Contents(s@),
            TokenFile::Unreadable => TokenFileView::Unreadable,
        }
    }
}

/// A read-only snapshot of the environment values the resolver consults.
///
/// The caller fills it from the process environment: each field is the value
/// of the correspondingly named variable, or `None` where that variable is
/// unset. For the token file the caller also performs the one file read and
/// records its outcome as a [`TokenFile`].
#[derive(Clone, Debug, PartialEq)]
pub struct EnvValues {
    /// Outcome of [`AZURE_FEDERATED_TOKEN_FILE`] and the file read it asks
    /// for.
    pub federated_token_file: TokenFile,
    /// Value of [`AZURE_FEDERATED_TOKEN`], if set.
    pub federated_token: Option<String>,
    /// Value of [`AZURE_TENANT_ID`], if set.
    pub tenant_id: Option<String>,
    /// Value of [`AZURE_AUTHORITY_HOST_ENV_KEY`], if set.
    pub authority_host: Option<String>,
}

/// Mathematical model of an [`EnvValues`] snapshot.
pub struct EnvValuesView {
    pub federated_token_file: TokenFileView,
    pub federated_token: Option<Seq<char>>,
    pub tenant_id: Option<Seq<char>>,
    pub authority_host: Option<Seq<char>>,
}

impl View for EnvValues {
    type V = EnvValuesView;

    open spec fn view(&self) -> EnvValuesView {
        EnvValuesView {
            federated_token_file: self.federated_token_file@,
            federated_token: self.federated_token.deep_view(),
            tenant_id: self.tenant_id.deep_view(),
            authority_host: self.authority_host.deep_view(),
        }
    }
}

/// The token a set token-file variable yields: the file's contents, or the
/// empty sequence where the file could not be read. The masking of a read
/// failure as an empty token is deliberate, documented policy.
pub open spec fn spec_file_token(file: TokenFileView) -> Seq<char> {
    match file {
        TokenFileView::Contents(s) => s,
        _ => Seq::<char>::empty(),
    }
}

/// Resolved federated token. Net precedence, highest first: the direct
/// environment variable, then the token-file variable, then whatever the
/// seed held.
pub open spec fn spec_federated_token(
    seed: Option<Seq<char>>,
    file: TokenFileView,
    direct: Option<Seq<char>>,
) -> Option<Seq<char>> {
    if direct is Some {
        direct
    } else if !(file is Unset) {
        Some(spec_file_token(file))
    } else {
        seed
    }
}

/// Resolved tenant id: the environment value whenever one is set, with no
/// presence check on the seed; otherwise the seed value.
pub open spec fn spec_tenant_id(
    seed: Option<Seq<char>>,
    env_value: Option<Seq<char>>,
) -> Option<Seq<char>> {
    if env_value is Some {
        env_value
    } else {
        seed
    }
}

/// Resolved authority host: the environment value if set, else the
/// public-cloud default. The seed plays no part, and the result is never
/// absent.
pub open spec fn spec_authority_host(env_value: Option<Seq<char>>) -> Option<Seq<char>> {
    match env_value {
        Some(host) => Some(host),
        None => Some(AZURE_PUBLIC_CLOUD@),
    }
}

/// The whole resolution: one merge pass over the fixed set of fields. The
/// static credential fields come from the seed alone; the three
/// federated-identity fields follow their field-specific rules.
pub open spec fn spec_resolve(seed: ConfigView, env: EnvValuesView) -> ConfigView {
    ConfigView {
        account_name: seed.account_name,
        account_key: seed.account_key,
        sas_token: seed.sas_token,
        object_id: seed.object_id,
        client_id: seed.client_id,
        msi_res_id: seed.msi_res_id,
        msi_secret: seed.msi_secret,
        endpoint: seed.endpoint,
        federated_token: spec_federated_token(
            seed.federated_token,
            env.federated_token_file,
            env.federated_token,
        ),
        tenant_id: spec_tenant_id(seed.tenant_id, env.tenant_id),
        authority_host: spec_authority_host(env.authority_host),
    }
}

/// The seed with every field absent.
pub open spec fn spec_empty_config() -> ConfigView {
    ConfigView {
        account_name: None,
        account_key: None,
        sas_token: None,
        object_id: None,
        client_id: None,
        msi_res_id: None,
        msi_secret: None,
        endpoint: None,
        federated_token: None,
        tenant_id: None,
        authority_host: None,
    }
}

/// Resolution leaves the statically supplied credential fields exactly as
/// the seed held them: they are never sourced from the environment.
pub proof fn lemma_resolve_preserves_static_fields(seed: ConfigView, env: EnvValuesView)
    ensures
        spec_resolve(seed, env).account_name == seed.account_name,
        spec_resolve(seed, env).account_key == seed.account_key,
        spec_resolve(seed, env).sas_token == seed.sas_token,
        spec_resolve(seed, env).object_id == seed.object_id,
        spec_resolve(seed, env).client_id == seed.client_id,
        spec_resolve(seed, env).msi_res_id == seed.msi_res_id,
        spec_resolve(seed, env).msi_secret == seed.msi_secret,
        spec_resolve(seed, env).endpoint == seed.endpoint,
{
}

/// With the authority-host variable unset and no authority host in the seed,
/// resolution fills in the public-cloud default.
pub proof fn lemma_default_authority_host(seed: ConfigView, env: EnvValuesView)
    requires
        env.authority_host is None,
        seed.authority_host is None,
    ensures
        spec_resolve(seed, env).authority_host == Some(AZURE_PUBLIC_CLOUD@),
{
}

/// When the environment carries an authority host, it decides the resolved
/// authority host, whatever the seed held.
pub proof fn lemma_env_authority_host_wins(seed: ConfigView, env: EnvValuesView)
    requires
        env.authority_host is Some,
    ensures
        spec_resolve(seed, env).authority_host == env.authority_host,
{
}

/// When the direct federated-token variable is set, its value decides the
/// resolved token, whatever the token-file variable or the seed held.
pub proof fn lemma_direct_federated_token_wins(seed: ConfigView, env: EnvValuesView)
    requires
        env.federated_token is Some,
    ensures
        spec_resolve(seed, env).federated_token == env.federated_token,
{
}

/// When the tenant-id variable is set, its value overrides the seed
/// unconditionally.
pub proof fn lemma_env_tenant_id_wins(seed: ConfigView, env: EnvValuesView)
    requires
        env.tenant_id is Some,
    ensures
        spec_resolve(seed, env).tenant_id == env.tenant_id,
{
}

/// Resolution is idempotent: resolving an already-resolved configuration
/// again, under the same environment, yields an identical result.
pub proof fn lemma_resolve_idempotent(seed: ConfigView, env: EnvValuesView)
    ensures
        spec_resolve(spec_resolve(seed, env), env) == spec_resolve(seed, env),
{
}

impl Default for Config {
    /// The empty seed: every field unset.
    fn default() -> (result: Config)
        ensures
            result@ == spec_empty_config(),
    {
        Config {
            account_name: None,
            account_key: None,
            sas_token: None,
            object_id: None,
            client_id: None,
            msi_res_id: None,
            msi_secret: None,
            endpoint: None,
            federated_token: None,
            tenant_id: None,
            authority_host: None,
        }
    }
}

/// The single named fallback for the documented error-masking policy: a set
/// token-file variable yields the file's contents, and an unreadable file
/// degrades to the empty token instead of an error.
fn file_token(file: TokenFile) -> (token: String)
    ensures
        token@ == spec_file_token(file@),
{
    match file {
        TokenFile::Contents(contents) => contents,
        _ => String::new(),
    }
}

impl Config {
    /// Merge this seed with the given environment snapshot, applying the
    /// fixed precedence order per field, and return the finalized
    /// configuration. Never fails: a file-read failure was already masked as
    /// an empty token when `env` was built, and every other outcome is
    /// ordinary control flow.
    pub fn resolve(self, env: EnvValues) -> (resolved: Config)
        ensures
            resolved@ == spec_resolve(self@, env@),
    {
        let EnvValues { federated_token_file, federated_token, tenant_id, authority_host } = env;
        let mut config = self;

        match federated_token_file {
            TokenFile::Unset => {},
            file => {
                config.federated_token = Some(file_token(file));
            },
        }

        if let Some(token) = federated_token {
            config.federated_token = Some(token);
        }

        if let Some(tenant) = tenant_id {
            config.tenant_id = Some(tenant);
        }

        match authority_host {
            Some(host) => {
                config.authority_host = Some(host);
            },
            None => {
                config.authority_host = Some(AZURE_PUBLIC_CLOUD.to_owned());
            },
        }

        config
    }
}

} // verus!
