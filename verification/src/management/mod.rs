//! The management application: pairing rules, emergency accounts, policy,
//! service control and account validation.
use vstd::prelude::*;

pub mod commands;
pub mod database;
pub mod frontend;
pub mod server;
pub mod wincred;

verus! {

/// Application configuration.
#[derive(Debug, Clone)]
pub struct AppConfig {
    pub service_name: String,
    pub pipe_path: String,
    pub db_path: String,
    pub max_retry_count: u32,
    pub auth_timeout_secs: u64,
}

impl Default for AppConfig {
    fn default() -> (c: Self)
        ensures
            c.service_name@ == "WinSLA Service"@,
            c.pipe_path@ == "\\\\.\\pipe\\winsla-auth-pipe"@,
            c.db_path@ == "winsla.db"@,
            c.max_retry_count == 3,
            c.auth_timeout_secs == 30,
    {
        AppConfig {
            service_name: String::from_str("WinSLA Service"),
            pipe_path: String::from_str("\\\\.\\pipe\\winsla-auth-pipe"),
            db_path: String::from_str("winsla.db"),
            max_retry_count: 3,
            auth_timeout_secs: 30,
        }
    }
}

/// An entry of the console menu.
#[derive(Debug, Clone, Copy, PartialEq, Eq, Structural)]
pub enum MenuChoice {
    ServiceStatus,
    ListPairs,
    AddPair,
    RemovePair,
    ListEmergency,
    AddEmergency,
    AuditLog,
    PolicyConfig,
    Exit,
    Invalid,
}

/// The menu entry a typed line selects (surrounding whitespace ignored).
pub open spec fn menu_choice_of(line: Seq<char>) -> MenuChoice {
    let t = crate::text::trim(line);
    if t == "1"@ {
        MenuChoice::ServiceStatus
    } else if t == "2"@ {
        MenuChoice::ListPairs
    } else if t == "3"@ {
        MenuChoice::AddPair
    } else if t == "4"@ {
        MenuChoice::RemovePair
    } else if t == "5"@ {
        MenuChoice::ListEmergency
    } else if t == "6"@ {
        MenuChoice::AddEmergency
    } else if t == "7"@ {
        MenuChoice::AuditLog
    } else if t == "8"@ {
        MenuChoice::PolicyConfig
    } else if t == "0"@ || t == "q"@ || t == "Q"@ {
        MenuChoice::Exit
    } else {
        MenuChoice::Invalid
    }
}

/// Reads a console menu selection.
pub fn menu_choice(line: &str) -> (c: MenuChoice)
    ensures
        c == menu_choice_of(line@),
{
    let t = crate::text::trim_str(line);
    let s = t.as_str();
    if crate::text::same_text(s, "1") {
        MenuChoice::ServiceStatus
    } else if crate::text::same_text(s, "2") {
        MenuChoice::ListPairs
    } else if crate::text::same_text(s, "3") {
        MenuChoice::AddPair
    } else if crate::text::same_text(s, "4") {
        MenuChoice::RemovePair
    } else if crate::text::same_text(s, "5") {
        MenuChoice::ListEmergency
    } else if crate::text::same_text(s, "6") {
        MenuChoice::AddEmergency
    } else if crate::text::same_text(s, "7") {
        MenuChoice::AuditLog
    } else if crate::text::same_text(s, "8") {
        MenuChoice::PolicyConfig
    } else if crate::text::same_text(s, "0") || crate::text::same_text(s, "q") || crate::text::same_text(s, "Q") {
        MenuChoice::Exit
    } else {
        MenuChoice::Invalid
    }
}

} // verus!
