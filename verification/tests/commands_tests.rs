//! Tests for the tool-server handshake commands.

use ergon::commands::{
    default_jsonrpc, Capabilities, ClientInfo, CommandId, CommandMethod, Elicitation, Initialize,
    InitializeParams, Initialized, Roots, Sampling,
};

#[test]
fn test_command_id_default() {
    let id = CommandId::default();
    if let CommandId::Text(s) = id {
        assert_eq!(s.len(), 10);
    } else {
        panic!("Expected CommandId to be String");
    }
}

#[test]
fn command_id_default_is_alphanumeric() {
    for _ in 0..20 {
        let id = CommandId::default();
        match id {
            CommandId::Text(s) => {
                assert!(s.chars().all(|c| c.is_ascii_alphanumeric()));
                assert_eq!(s.chars().count(), 10);
            }
            CommandId::Integer(_) => panic!("Expected CommandId to be String"),
        }
    }
}

#[test]
fn command_id_defaults_differ() {
    // Fresh ids must be fresh enough to tell requests apart; a constant
    // would collide on every draw.
    let mut all_equal = true;
    let first = match CommandId::default() {
        CommandId::Text(s) => s,
        CommandId::Integer(_) => panic!("Expected CommandId to be String"),
    };
    for _ in 0..10 {
        if let CommandId::Text(s) = CommandId::default() {
            if s != first {
                all_equal = false;
            }
        }
    }
    assert!(!all_equal);
}

#[test]
fn test_default_jsonrpc() {
    let jsonrpc = default_jsonrpc();
    assert_eq!(jsonrpc, "2.0");
}

#[test]
fn test_initialize_structure() {
    let init = Initialize {
        jsonrpc: default_jsonrpc(),
        id: CommandId::default(),
        method: CommandMethod::Initialize,
        params: InitializeParams {
            protocol_version: "1.0".to_string(),
            client_info: ClientInfo {
                name: "Ergon".to_string(),
                title: "Ergon Client".to_string(),
                version: "0.1.0".to_string(),
            },
            capabilities: Capabilities {
                roots: Some(Roots {
                    list_changed: false,
                }),
                sampling: Some(Sampling {}),
                elicitation: Some(Elicitation {}),
            },
        },
    };
    assert_eq!(init.jsonrpc, "2.0");
    if let CommandId::Text(id) = init.id {
        assert_eq!(id.len(), 10);
    } else {
        panic!("Expected CommandId to be String");
    }
    assert_eq!(init.method, CommandMethod::Initialize);
    assert_eq!(init.params.protocol_version, "1.0");
    assert_eq!(init.params.client_info.name, "Ergon");
    assert_eq!(init.params.client_info.title, "Ergon Client");
    assert_eq!(init.params.client_info.version, "0.1.0");
    assert!(matches!(
        init.params.capabilities.roots,
        Some(Roots {
            list_changed: false
        })
    ));
    assert!(matches!(
        init.params.capabilities.sampling,
        Some(Sampling {})
    ));
    assert!(matches!(
        init.params.capabilities.elicitation,
        Some(Elicitation {})
    ));
}

#[test]
fn test_initialize_new() {
    let params = InitializeParams {
        protocol_version: "1.0".to_string(),
        client_info: ClientInfo {
            name: "Ergon".to_string(),
            title: "Ergon Client".to_string(),
            version: "0.1.0".to_string(),
        },
        capabilities: Capabilities {
            roots: Some(Roots {
                list_changed: false,
            }),
            sampling: Some(Sampling {}),
            elicitation: Some(Elicitation {}),
        },
    };
    let init = Initialize::new(params);
    assert_eq!(init.jsonrpc, "2.0");
    assert!(matches!(init.id, CommandId::Text(_)));
    assert_eq!(init.method, CommandMethod::Initialize);
}

#[test]
fn test_initialize_new_without_capabilities() {
    let params = InitializeParams {
        protocol_version: "1.0".to_string(),
        client_info: ClientInfo {
            name: "Ergon".to_string(),
            title: "Ergon Client".to_string(),
            version: "0.1.0".to_string(),
        },
        capabilities: Capabilities {
            roots: None,
            sampling: None,
            elicitation: None,
        },
    };
    let init = Initialize::new(params);
    assert_eq!(init.jsonrpc, "2.0");
    assert!(matches!(init.id, CommandId::Text(_)));
    assert_eq!(init.method, CommandMethod::Initialize);
    assert!(init.params.capabilities.roots.is_none());
    assert!(init.params.capabilities.sampling.is_none());
    assert!(init.params.capabilities.elicitation.is_none());
}

#[test]
fn initialized_notification_shape() {
    let initialized = Initialized::new();
    assert_eq!(initialized.jsonrpc, "2.0");
    assert_eq!(initialized.method, CommandMethod::Initialized);
}
