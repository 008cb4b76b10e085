use rust_mcp_schema::{CallToolError, RpcError, UnknownTool};

#[test]
fn test_unknown_tool() {
    let error = CallToolError::unknown_tool("summarizer");
    assert_eq!(error.0, "Unknown tool: summarizer");

    let wrapped = CallToolError::new(UnknownTool("summarizer".to_string()));
    assert_eq!(wrapped.0, "Unknown tool: summarizer");

    assert_eq!(
        UnknownTool("echo".to_string()).to_string(),
        "Unknown tool: echo"
    );
}

#[test]
fn test_invalid_arguments() {
    let error = CallToolError::invalid_arguments("my_tool", Some("missing field".to_string()));
    assert_eq!(error.0, "Invalid arguments for tool 'my_tool': missing field");

    let error = CallToolError::invalid_arguments("  my_tool \n", None);
    assert_eq!(
        error.0,
        "Invalid arguments for tool 'my_tool': no additional details provided"
    );

    let error = CallToolError::invalid_arguments("   ", Some("whatever".to_string()));
    assert_eq!(error.0, "Invalid arguments: tool name cannot be empty");

    let error = CallToolError::invalid_arguments("", None);
    assert_eq!(error.0, "Invalid arguments: tool name cannot be empty");
}

#[test]
fn test_from_message() {
    let error = CallToolError::from_message("Something went wrong".to_string());
    assert_eq!(error.to_string(), "Something went wrong");
}

#[test]
fn test_call_tool_error_into_rpc_error() {
    let rpc: RpcError = CallToolError::from_message("tool blew up".to_string()).into();
    assert_eq!(rpc.code, -32603);
    assert_eq!(rpc.message, "tool blew up");
    assert!(rpc.data.is_none());
}
