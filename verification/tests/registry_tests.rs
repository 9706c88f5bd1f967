//! Tests for the tool-server registry: namespacing, resolution, and the
//! dispatcher's resolution step.

use ergon::dispatch::prepare_invocation;
use ergon::models::{Tool, ToolCall, ToolFunction};
use ergon::registry::{ServerCatalog, ToolManager};

fn tool(name: &str) -> Tool {
    Tool {
        name: name.to_string(),
        description: format!("the {} tool", name),
        parameters: "{}".to_string(),
    }
}

fn two_server_registry() -> ToolManager {
    let mut manager = ToolManager::new();
    manager.install(vec![
        ServerCatalog {
            server_id: "calc".to_string(),
            tools: vec![tool("add"), tool("sub")],
        },
        ServerCatalog {
            server_id: "web".to_string(),
            tools: vec![tool("add"), tool("fetch")],
        },
    ]);
    manager
}

#[test]
fn namespaced_catalog_is_globally_unique() {
    // Both servers report a tool locally named "add"; the published names
    // still never collide.
    let manager = two_server_registry();
    let names: Vec<String> = manager.get_tools().into_iter().map(|t| t.name).collect();
    assert_eq!(names, vec!["calc__add", "calc__sub", "web__add", "web__fetch"]);
    for i in 0..names.len() {
        for j in (i + 1)..names.len() {
            assert_ne!(names[i], names[j]);
        }
    }
}

#[test]
fn resolve_recovers_the_producing_pair() {
    let manager = two_server_registry();
    assert_eq!(
        manager.resolve("calc__add"),
        Some(("calc".to_string(), "add".to_string()))
    );
    assert_eq!(
        manager.resolve("web__fetch"),
        Some(("web".to_string(), "fetch".to_string()))
    );
}

#[test]
fn resolve_rejects_malformed_and_unknown_names() {
    let manager = two_server_registry();
    // No separator: never guessed at.
    assert_eq!(manager.resolve("plainname"), None);
    // Well-formed, but no such server.
    assert_eq!(manager.resolve("ghost__add"), None);
}

#[test]
fn resolve_splits_at_the_first_separator() {
    let mut manager = ToolManager::new();
    manager.install(vec![ServerCatalog {
        server_id: "calc".to_string(),
        tools: vec![tool("a__b")],
    }]);
    // The local name may itself contain the separator; the first
    // occurrence decides.
    assert_eq!(
        manager.resolve("calc__a__b"),
        Some(("calc".to_string(), "a__b".to_string()))
    );
}

#[test]
fn install_replaces_the_catalog_wholesale() {
    let mut manager = two_server_registry();
    manager.install(vec![ServerCatalog {
        server_id: "only".to_string(),
        tools: vec![tool("one")],
    }]);
    let names: Vec<String> = manager.get_tools().into_iter().map(|t| t.name).collect();
    assert_eq!(names, vec!["only__one"]);
    // The old servers are gone with their tools: no stale cross-reference.
    assert_eq!(manager.resolve("calc__add"), None);
}

#[test]
fn failing_server_contributes_no_tools() {
    // A server that failed discovery is simply absent from the round.
    let mut manager = ToolManager::new();
    manager.install(vec![ServerCatalog {
        server_id: "healthy".to_string(),
        tools: vec![tool("ping")],
    }]);
    let names: Vec<String> = manager.get_tools().into_iter().map(|t| t.name).collect();
    assert_eq!(names, vec!["healthy__ping"]);
}

#[test]
fn prepare_invocation_resolves_the_owning_server() {
    let manager = two_server_registry();
    let call = ToolCall {
        id: "call-1".to_string(),
        _type: "function".to_string(),
        function: ToolFunction {
            name: "calc__add".to_string(),
            arguments: "{\"a\":2,\"b\":2}".to_string(),
        },
    };
    match prepare_invocation(&manager, &call) {
        Ok((server, local, args)) => {
            assert_eq!(server, "calc");
            assert_eq!(local, "add");
            assert_eq!(args, "{\"a\":2,\"b\":2}");
        }
        Err(_) => panic!("the call must resolve"),
    }
}

#[test]
fn prepare_invocation_attributes_failure_to_the_call() {
    let manager = two_server_registry();
    let call = ToolCall {
        id: "call-9".to_string(),
        _type: "function".to_string(),
        function: ToolFunction {
            name: "nosuch__tool".to_string(),
            arguments: "{}".to_string(),
        },
    };
    match prepare_invocation(&manager, &call) {
        Err((id, msg)) => {
            assert_eq!(id, "call-9");
            assert_eq!(msg, "Unknown tool: nosuch__tool");
        }
        Ok(_) => panic!("an unknown server must not resolve"),
    }
}
