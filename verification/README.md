# winsla

Dual-account ("two-person rule") Windows logon. A logon at the WinSLA tile
needs the credentials of the account and of its approver; an emergency
override admits a listed account alone where the policy allows it. After
three consecutive failures (by default) an account is locked for ten minutes.

## Layout

- `src/` — the library, verified with Verus:
  - `cp_provider` — the credential provider: fields and tile state, the
    request sent to the service, serialization and logon-package choices,
    the provider filter and the class factory's lock count.
  - `win_service` — the authentication service: the pairing rule, the
    emergency override, login-attempt accounting and lock-out, the dual and
    emergency request flows as state machines, and the registry policy sync.
  - `ad_bridge` — LDAP domain configuration and the walk over domain
    controllers.
  - `management` — policy rows, pair and emergency records, service command
    results and the frontend file table of the management application.
  - `text`, `wire` — UTF-16 and decimal text, little-endian integers and
    length-prefixed frames.
- `tests/` — tests of the library.
- `app/` — the programs around it: the named-pipe service, the management
  HTTP server and console, and the COM shell that LogonUI loads. Windows API
  calls, pipes, sockets and the SQLite store live here.
