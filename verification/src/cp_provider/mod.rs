//! The credential provider that LogonUI hosts: tiles, fields, submission.
pub mod com_types;
pub mod dual_auth_credential;
pub mod pipe_client;
pub mod credential_com;
pub mod credential_provider;
pub mod ui_controls;
pub mod provider_com;
