//! `run`: initialize a local MCP server.
//!
//! This does not bind a socket or start an MCP process; it is a stub so the
//! CLI surface and config loading can land first.

use vstd::prelude::*;

use crate::config::{McpConfig, DEFAULT_MCP_PORT};
use crate::errors::{AgentDevexError, ErrorView};

verus! {

/// The port asked for: the command line's, else the one in `agent.toml`
/// (when that file loaded), else 3000.
pub open spec fn requested_port(cli_port: Option<u16>, config_port: Option<u16>) -> u16 {
    match cli_port {
        Some(p) => p,
        None => match config_port {
            Some(p) => p,
            None => 3000,
        },
    }
}

pub open spec fn port_result_view(r: Result<u16, AgentDevexError>) -> Result<u16, ErrorView> {
    match r {
        Ok(p) => Ok(p),
        Err(e) => Err(e@),
    }
}

/// What resolving the port gives: the requested port, refused when it is 0.
pub open spec fn port_resolution(cli_port: Option<u16>, config_port: Option<u16>) -> Result<u16, ErrorView> {
    let p = requested_port(cli_port, config_port);
    if p == 0 {
        Err(ErrorView::InvalidConfigValue { key: "mcp.port"@, value: "0"@ })
    } else {
        Ok(p)
    }
}

/// CLI `--port` wins, then `agent.toml` (`config_port`, present when the
/// file loaded), then [`DEFAULT_MCP_PORT`].
pub fn resolve_mcp_port(cli_port: Option<u16>, config_port: Option<u16>) -> (r: Result<u16, AgentDevexError>)
    ensures
        port_result_view(r) == port_resolution(cli_port, config_port),
{
    let port = match cli_port {
        Some(port) => port,
        None => match config_port {
            Some(port) => port,
            None => DEFAULT_MCP_PORT,
        },
    };
    McpConfig::validate_port(port)
}

/// Initialize a local MCP server: resolve the port it would listen on.
pub fn cmd_run(cli_port: Option<u16>, config_port: Option<u16>) -> (r: Result<u16, AgentDevexError>)
    ensures
        port_result_view(r) == port_resolution(cli_port, config_port),
{
    resolve_mcp_port(cli_port, config_port)
}

} // verus!
