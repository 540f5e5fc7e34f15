use recoverable_messaging::resource::{
    none_if_empty, resource_id, resource_id_from_id, AsId, JsonWebKey, KeyBundle, KeyItem,
    ResourceId,
};

#[test]
fn test_deconstruct() {
    resource_id_from_id("file:///tmp").expect_err("cannot-be-base url");
    resource_id_from_id("https://vault.azure.net/").expect_err("missing collection");
    resource_id_from_id("https://vault.azure.net/collection/").expect_err("invalid collection");
    resource_id_from_id("https://vault.azure.net/keys/").expect_err("missing name");

    assert_eq!(
        resource_id_from_id("https://vault.azure.net/keys/name").unwrap(),
        ResourceId {
            source_id: "https://vault.azure.net/keys/name".into(),
            vault_url: "https://vault.azure.net".into(),
            name: "name".into(),
            version: None
        }
    );

    assert_eq!(
        resource_id_from_id("https://vault.azure.net/keys/name/version").unwrap(),
        ResourceId {
            source_id: "https://vault.azure.net/keys/name/version".into(),
            vault_url: "https://vault.azure.net".into(),
            name: "name".into(),
            version: Some("version".into()),
        }
    );

    // A default port is dropped by URL normalization.
    assert_eq!(
        resource_id_from_id("https://vault.azure.net:443/keys/name/version").unwrap(),
        ResourceId {
            source_id: "https://vault.azure.net/keys/name/version".into(),
            vault_url: "https://vault.azure.net".into(),
            name: "name".into(),
            version: Some("version".into()),
        }
    );

    // A non-default port stays.
    assert_eq!(
        resource_id_from_id("https://vault.azure.net:8443/keys/name/version").unwrap(),
        ResourceId {
            source_id: "https://vault.azure.net:8443/keys/name/version".into(),
            vault_url: "https://vault.azure.net:8443".into(),
            name: "name".into(),
            version: Some("version".into()),
        }
    );
}

#[test]
fn from_secret_bundle() {
    let mut key = KeyBundle { key: None };
    resource_id(&key).expect_err("missing resource id");

    key.key = Some(JsonWebKey { kid: None });
    resource_id(&key).expect_err("missing resource id");

    key.key = Some(JsonWebKey {
        kid: Some("https://vault.azure.net/keys/name/version".to_string()),
    });
    assert_eq!(
        resource_id(&key).unwrap(),
        ResourceId {
            source_id: "https://vault.azure.net/keys/name/version".into(),
            vault_url: "https://vault.azure.net".into(),
            name: "name".into(),
            version: Some("version".into()),
        }
    );
}

#[test]
fn unparsable_url_is_rejected() {
    assert!(resource_id_from_id("not a url at all").is_err());
    assert!(resource_id_from_id("").is_err());
}

#[test]
fn empty_version_segment_means_no_version() {
    let id = resource_id_from_id("https://vault.azure.net/keys/name/").unwrap();
    assert_eq!(id.name, "name");
    assert_eq!(id.version, None);
}

#[test]
fn key_item_resource_id() {
    let item = KeyItem { kid: None };
    resource_id(&item).expect_err("missing resource id");
    let item = KeyItem {
        kid: Some("https://vault.azure.net/keys/name".to_string()),
    };
    assert_eq!(
        item.as_id(),
        Some(&"https://vault.azure.net/keys/name".to_string())
    );
    let id = resource_id(&item).unwrap();
    assert_eq!(id.name, "name");
    assert_eq!(id.version, None);
}

#[test]
fn none_if_empty_distinguishes_empty() {
    assert_eq!(none_if_empty(""), None);
    assert_eq!(none_if_empty("x"), Some("x"));
}
