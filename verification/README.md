# kabipay

The verified core of KabiPay, a multi-tenant HR and payroll platform for
Indian companies: leave, expenses and travel, grievances, payroll and
statutory deductions (EPF, ESI, TDS), payroll exports, employee profiles and
documents, notifications, tenant operations and billing.

The code in `src/` is verified by Verus: public functions state what they
return in `requires` / `ensures` contracts, and private helpers carry the
contracts their callers need. Calls into outside crates (`rust_decimal`, `chrono`, `uuid`, `hmac`,
`sha2`, `base64`, `urlencoding`, `argon2`) go through small trusted wrappers
whose contracts are stated next to them.

Layout:

- `src/` — the library: one module per domain (`leave`, `payroll`,
  `statutory`, `payroll_export`, `approvals`, `ops`, `billing`, `storage`,
  `token`, ...), with `resolvers/` holding the argument checks and decisions
  of each service's API; public `law_*` proof functions state the properties
  that hold across operations.
- `tests/` — executable tests of the library.
- `app/` — a command-line front end that reads the environment, files and the
  clock and hands plain values to the library.
