use xlm_ns::cli::{
    error_context, validate_contract_policy, BulkCommands, Commands, ContractKind, ContractOverrides,
    ErrorDomain, Network, NetworkConfig, SubdomainCommands, SubjectKind,
};

fn config_with_all_contracts() -> NetworkConfig {
    NetworkConfig {
        network: Network::Testnet,
        rpc_url: "https://soroban-testnet.stellar.org".to_string(),
        network_passphrase: "Test SDF Network ; September 2015".to_string(),
        registry_contract_id: Some("REGISTRY111".to_string()),
        registrar_contract_id: Some("REGISTRAR111".to_string()),
        resolver_contract_id: Some("RESOLVER111".to_string()),
        auction_contract_id: Some("AUCTION111".to_string()),
        bridge_contract_id: Some("BRIDGE111".to_string()),
        subdomain_contract_id: Some("SUBDOMAIN111".to_string()),
        nft_contract_id: Some("NFT111".to_string()),
        config_path: None,
    }
}

fn config_with_no_contracts() -> NetworkConfig {
    NetworkConfig {
        network: Network::Testnet,
        rpc_url: "https://soroban-testnet.stellar.org".to_string(),
        network_passphrase: "Test SDF Network ; September 2015".to_string(),
        registry_contract_id: None,
        registrar_contract_id: None,
        resolver_contract_id: None,
        auction_contract_id: None,
        bridge_contract_id: None,
        subdomain_contract_id: None,
        nft_contract_id: None,
        config_path: None,
    }
}

// --- register ---

#[test]
fn register_rejects_irrelevant_resolver_flag() {
    let cmd = Commands::Register {
        name: Some("test.xlm".to_string()),
        owner: Some("GDRA111".to_string()),
        interactive: false,
        signer: None,
    };
    let overrides = ContractOverrides {
        resolver_contract_id: Some("RESOLVER111".to_string()),
        ..Default::default()
    };
    let result = validate_contract_policy(&cmd, &overrides, &config_with_all_contracts());
    assert!(result.is_err());
    let msg = result.unwrap_err();
    assert!(
        msg.contains("resolver-contract-id"),
        "expected resolver-contract-id in: {msg}"
    );
    assert!(msg.contains("register"), "expected 'register' in: {msg}");
}

#[test]
fn register_accepts_registry_flag() {
    let cmd = Commands::Register {
        name: Some("test.xlm".to_string()),
        owner: Some("GDRA111".to_string()),
        interactive: false,
        signer: None,
    };
    let overrides = ContractOverrides {
        registry_contract_id: Some("REGISTRY111".to_string()),
        ..Default::default()
    };
    let result = validate_contract_policy(&cmd, &overrides, &config_with_all_contracts());
    assert!(
        result.is_ok(),
        "registry-contract-id should be allowed for register"
    );
}

#[test]
fn register_fails_when_registrar_is_missing() {
    let cmd = Commands::Register {
        name: Some("test.xlm".to_string()),
        owner: Some("GDRA111".to_string()),
        interactive: false,
        signer: None,
    };
    let result = validate_contract_policy(
        &cmd,
        &ContractOverrides::default(),
        &config_with_no_contracts(),
    );
    assert!(result.is_err());
    let msg = result.unwrap_err();
    assert!(
        msg.contains("registrar-contract-id"),
        "expected registrar-contract-id in: {msg}"
    );
}

#[test]
fn register_passes_with_only_registrar_flag() {
    let cmd = Commands::Register {
        name: Some("test.xlm".to_string()),
        owner: Some("GDRA111".to_string()),
        interactive: false,
        signer: None,
    };
    let overrides = ContractOverrides {
        registrar_contract_id: Some("REGISTRAR111".to_string()),
        ..Default::default()
    };
    let mut cfg = config_with_no_contracts();
    cfg.registrar_contract_id = Some("REGISTRAR111".to_string());
    let result = validate_contract_policy(&cmd, &overrides, &cfg);
    assert!(result.is_ok(), "unexpected error: {:?}", result.err());
}

// --- resolve ---

#[test]
fn resolve_accepts_registry_flag() {
    let cmd = Commands::Resolve {
        name: "test.xlm".to_string(),
    };
    let overrides = ContractOverrides {
        registry_contract_id: Some("REGISTRY111".to_string()),
        ..Default::default()
    };
    let result = validate_contract_policy(&cmd, &overrides, &config_with_all_contracts());
    assert!(
        result.is_ok(),
        "registry-contract-id should be allowed for resolve"
    );
}

#[test]
fn resolve_fails_when_resolver_is_missing() {
    let cmd = Commands::Resolve {
        name: "test.xlm".to_string(),
    };
    let result = validate_contract_policy(
        &cmd,
        &ContractOverrides::default(),
        &config_with_no_contracts(),
    );
    assert!(result.is_err());
}

// --- transfer ---

#[test]
fn transfer_rejects_irrelevant_registrar_flag() {
    let cmd = Commands::Transfer {
        name: "test.xlm".to_string(),
        new_owner: "GDRANEW".to_string(),
        signer: None,
    };
    let overrides = ContractOverrides {
        registrar_contract_id: Some("REGISTRAR111".to_string()),
        ..Default::default()
    };
    let result = validate_contract_policy(&cmd, &overrides, &config_with_all_contracts());
    assert!(result.is_err());
    let msg = result.unwrap_err();
    assert!(
        msg.contains("registrar-contract-id"),
        "expected registrar-contract-id in: {msg}"
    );
    assert!(msg.contains("transfer"), "expected 'transfer' in: {msg}");
}

#[test]
fn transfer_fails_when_registry_is_missing() {
    let cmd = Commands::Transfer {
        name: "test.xlm".to_string(),
        new_owner: "GDRANEW".to_string(),
        signer: None,
    };
    let result = validate_contract_policy(
        &cmd,
        &ContractOverrides::default(),
        &config_with_no_contracts(),
    );
    assert!(result.is_err());
    let msg = result.unwrap_err();
    assert!(
        msg.contains("registry-contract-id"),
        "expected registry-contract-id in: {msg}"
    );
}

// --- quote ---

#[test]
fn quote_accepts_registry_flag() {
    let cmd = Commands::Quote {
        name: "test".to_string(),
        years: 1,
    };
    let overrides = ContractOverrides {
        registry_contract_id: Some("REGISTRY111".to_string()),
        ..Default::default()
    };
    let result = validate_contract_policy(&cmd, &overrides, &config_with_all_contracts());
    assert!(
        result.is_ok(),
        "registry-contract-id should be allowed for quote"
    );
}

// --- availability ---

#[test]
fn availability_rejects_irrelevant_registrar_flag() {
    let cmd = Commands::Availability {
        name: "test.xlm".to_string(),
    };
    let overrides = ContractOverrides {
        registrar_contract_id: Some("REGISTRAR111".to_string()),
        ..Default::default()
    };
    let result = validate_contract_policy(&cmd, &overrides, &config_with_all_contracts());
    assert!(result.is_err());
    let msg = result.unwrap_err();
    assert!(
        msg.contains("registrar-contract-id"),
        "expected registrar-contract-id in: {msg}"
    );
}

#[test]
fn availability_passes_with_no_contracts_configured() {
    let cmd = Commands::Availability {
        name: "test.xlm".to_string(),
    };
    let result = validate_contract_policy(
        &cmd,
        &ContractOverrides::default(),
        &config_with_no_contracts(),
    );
    assert!(
        result.is_ok(),
        "availability needs no required contracts: {:?}",
        result.err()
    );
}

// --- healthcheck ---

#[test]
fn healthcheck_allows_all_contract_flags() {
    let cmd = Commands::Healthcheck;
    let overrides = ContractOverrides {
        registry_contract_id: Some("REGISTRY111".to_string()),
        registrar_contract_id: Some("REGISTRAR111".to_string()),
        resolver_contract_id: Some("RESOLVER111".to_string()),
        auction_contract_id: Some("AUCTION111".to_string()),
        bridge_contract_id: Some("BRIDGE111".to_string()),
        subdomain_contract_id: Some("SUBDOMAIN111".to_string()),
        nft_contract_id: Some("NFT111".to_string()),
    };
    let result = validate_contract_policy(&cmd, &overrides, &config_with_no_contracts());
    assert!(
        result.is_ok(),
        "healthcheck should accept any contract flag: {:?}",
        result.err()
    );
}

#[test]
fn healthcheck_passes_with_no_contracts_configured() {
    let cmd = Commands::Healthcheck;
    let result = validate_contract_policy(
        &cmd,
        &ContractOverrides::default(),
        &config_with_no_contracts(),
    );
    assert!(
        result.is_ok(),
        "healthcheck requires no contracts: {:?}",
        result.err()
    );
}

// --- exact messages and labels ---

#[test]
fn rejected_flag_message_is_exact() {
    let cmd = Commands::Transfer {
        name: "test.xlm".to_string(),
        new_owner: "GDRANEW".to_string(),
        signer: None,
    };
    let overrides = ContractOverrides {
        auction_contract_id: Some("AUCTION111".to_string()),
        registrar_contract_id: Some("REGISTRAR111".to_string()),
        ..Default::default()
    };
    let msg = validate_contract_policy(&cmd, &overrides, &config_with_all_contracts()).unwrap_err();
    assert_eq!(msg, "`--registrar-contract-id` cannot be used with `transfer`");
}

#[test]
fn missing_contract_message_is_exact() {
    let cmd = Commands::Bulk(BulkCommands::Renew {
        file: "names.txt".to_string(),
    });
    let msg = validate_contract_policy(
        &cmd,
        &ContractOverrides::default(),
        &config_with_no_contracts(),
    )
    .unwrap_err();
    assert_eq!(
        msg,
        "`bulk renew` requires a registrar contract ID. Set `--registrar-contract-id`, `XLM_NS_REGISTRAR_CONTRACT_ID`, or the config file value."
    );
}

#[test]
fn provided_kinds_follow_flag_order() {
    let overrides = ContractOverrides {
        nft_contract_id: Some("N".to_string()),
        registry_contract_id: Some("R".to_string()),
        bridge_contract_id: Some("B".to_string()),
        ..Default::default()
    };
    assert_eq!(
        overrides.provided_kinds(),
        vec![ContractKind::Registry, ContractKind::Bridge, ContractKind::Nft]
    );
}

#[test]
fn error_context_labels_subdomain_creation_with_full_name() {
    let cmd = Commands::Subdomain(SubdomainCommands::Create {
        label: "pay".to_string(),
        parent: "timmy.xlm".to_string(),
        owner: "GOWNER".to_string(),
    });
    let ctx = error_context(&cmd);
    assert_eq!(ctx.domain, ErrorDomain::Subdomain);
    assert_eq!(ctx.subject, Some("pay.timmy.xlm".to_string()));
    assert_eq!(ctx.subject_kind, SubjectKind::Name);
    assert_eq!(ctx.command, "subdomain");
}

#[test]
fn error_context_labels_healthcheck_without_subject() {
    let ctx = error_context(&Commands::Healthcheck);
    assert_eq!(ctx.domain, ErrorDomain::General);
    assert_eq!(ctx.subject, None);
    assert_eq!(ctx.subject_kind, SubjectKind::Unknown);
    assert_eq!(ctx.command, "healthcheck");
}

#[test]
fn error_context_labels_register_without_name() {
    let cmd = Commands::Register {
        name: None,
        owner: None,
        interactive: true,
        signer: None,
    };
    let ctx = error_context(&cmd);
    assert_eq!(ctx.domain, ErrorDomain::Registrar);
    assert_eq!(ctx.subject, None);
    assert_eq!(ctx.command, "register");
}
