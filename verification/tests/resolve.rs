use credential_config::{Config, EnvValues, TokenFile, AZURE_PUBLIC_CLOUD};

fn set(value: &str) -> Option<String> {
    Some(value.to_string())
}

fn silent_env() -> EnvValues {
    EnvValues {
        federated_token_file: TokenFile::Unset,
        federated_token: None,
        tenant_id: None,
        authority_host: None,
    }
}

fn full_seed() -> Config {
    Config {
        account_name: set("acct"),
        account_key: set("key"),
        sas_token: set("sas"),
        object_id: set("obj"),
        client_id: set("client"),
        msi_res_id: set("msi-res"),
        msi_secret: set("msi-secret"),
        endpoint: set("http://example.com/endpoint"),
        federated_token: set("seed-token"),
        tenant_id: set("seed-tenant"),
        authority_host: set("https://seed.example.com"),
    }
}

#[test]
fn static_fields_preserved() {
    let env = EnvValues {
        federated_token_file: TokenFile::Contents("tok-from-file".to_string()),
        federated_token: set("tok-direct"),
        tenant_id: set("tenant-123"),
        authority_host: set("https://login.example.com"),
    };
    let resolved = full_seed().resolve(env);
    assert_eq!(resolved.account_name, set("acct"));
    assert_eq!(resolved.account_key, set("key"));
    assert_eq!(resolved.sas_token, set("sas"));
    assert_eq!(resolved.object_id, set("obj"));
    assert_eq!(resolved.client_id, set("client"));
    assert_eq!(resolved.msi_res_id, set("msi-res"));
    assert_eq!(resolved.msi_secret, set("msi-secret"));
    assert_eq!(resolved.endpoint, set("http://example.com/endpoint"));
}

#[test]
fn default_authority_host_when_unset() {
    let resolved = Config::default().resolve(silent_env());
    assert_eq!(resolved.authority_host, set(AZURE_PUBLIC_CLOUD));
    assert_eq!(resolved.authority_host, set("https://login.microsoftonline.com"));
}

#[test]
fn default_authority_host_overrides_seed() {
    let resolved = full_seed().resolve(silent_env());
    assert_eq!(resolved.authority_host, set(AZURE_PUBLIC_CLOUD));
}

#[test]
fn env_authority_host_overrides_seed() {
    let env = EnvValues {
        authority_host: set("https://login.example.com"),
        ..silent_env()
    };
    let resolved = full_seed().resolve(env.clone());
    assert_eq!(resolved.authority_host, set("https://login.example.com"));

    let resolved_empty_seed = Config::default().resolve(env);
    assert_eq!(resolved_empty_seed.authority_host, set("https://login.example.com"));
}

#[test]
fn federated_token_from_file() {
    let env = EnvValues {
        federated_token_file: TokenFile::Contents("tok-from-file".to_string()),
        ..silent_env()
    };
    let resolved = Config::default().resolve(env);
    assert_eq!(resolved.federated_token, set("tok-from-file"));
}

#[test]
fn file_token_overrides_seed() {
    let env = EnvValues {
        federated_token_file: TokenFile::Contents("tok-from-file".to_string()),
        ..silent_env()
    };
    let resolved = full_seed().resolve(env);
    assert_eq!(resolved.federated_token, set("tok-from-file"));
}

#[test]
fn direct_federated_token_overrides_file() {
    let env = EnvValues {
        federated_token_file: TokenFile::Contents("tok-from-file".to_string()),
        federated_token: set("tok-direct"),
        ..silent_env()
    };
    let resolved = Config::default().resolve(env);
    assert_eq!(resolved.federated_token, set("tok-direct"));
}

#[test]
fn unreadable_token_file_yields_empty_token() {
    let env = EnvValues {
        federated_token_file: TokenFile::Unreadable,
        ..silent_env()
    };
    let resolved = Config::default().resolve(env);
    assert_eq!(resolved.federated_token, set(""));
}

#[test]
fn seed_federated_token_kept_when_env_silent() {
    let resolved = full_seed().resolve(silent_env());
    assert_eq!(resolved.federated_token, set("seed-token"));
}

#[test]
fn env_tenant_id_overrides_seed() {
    let env = EnvValues {
        tenant_id: set("tenant-123"),
        ..silent_env()
    };
    let mut seed = Config::default();
    seed.tenant_id = set("preexisting");
    let resolved = seed.resolve(env);
    assert_eq!(resolved.tenant_id, set("tenant-123"));
}

#[test]
fn seed_tenant_id_kept_when_env_silent() {
    let mut seed = Config::default();
    seed.tenant_id = set("preexisting");
    let resolved = seed.resolve(silent_env());
    assert_eq!(resolved.tenant_id, set("preexisting"));
}

#[test]
fn resolve_is_idempotent() {
    let env = EnvValues {
        federated_token_file: TokenFile::Contents("tok-from-file".to_string()),
        tenant_id: set("tenant-123"),
        ..silent_env()
    };
    let once = full_seed().resolve(env.clone());
    let twice = once.clone().resolve(env);
    assert_eq!(once, twice);
}

#[test]
fn resolve_is_idempotent_under_silent_env() {
    let once = Config::default().resolve(silent_env());
    let twice = once.clone().resolve(silent_env());
    assert_eq!(once, twice);
}

#[test]
fn default_config_all_unset() {
    let config = Config::default();
    assert_eq!(config.account_name, None);
    assert_eq!(config.account_key, None);
    assert_eq!(config.sas_token, None);
    assert_eq!(config.object_id, None);
    assert_eq!(config.client_id, None);
    assert_eq!(config.msi_res_id, None);
    assert_eq!(config.msi_secret, None);
    assert_eq!(config.endpoint, None);
    assert_eq!(config.federated_token, None);
    assert_eq!(config.tenant_id, None);
    assert_eq!(config.authority_host, None);
}
