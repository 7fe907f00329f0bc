//! WinSLA: dual-account ("two-person rule") Windows logon, as a verified library.
//!
//! The modules follow the components of the product: the credential provider
//! that LogonUI loads, the authentication service, the AD bridge and the
//! management application. Each holds the decisions of its component; the
//! Windows API calls, pipes, sockets and the SQLite store stay outside.
pub mod text;
pub mod wire;
pub mod ad_bridge;
pub mod management;
pub mod cp_provider;
pub mod win_service;
