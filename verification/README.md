# conference

The back end of a conference registration service: conferences and their
price tiers, registrations and group registrations of delegates, group
discounts, participants, and the records around them (clients,
organizations, venues, activities, masterclasses, speakers, sponsors,
exhibitors, users).

## Layout

- `src/` is the library, verified with Verus.
  - `delegate_registration.rs` registers a group of delegates: it checks the
    conference, the price tier and the discount code, prices the group, and
    then drives the writes (organization, client, registration,
    participants) as a state machine that the caller runs against the
    database.  `direct_registration.rs` is the variant without checks.
  - `models/` and `services/` hold the records, the rules on them (status
    transitions, payment status, updates that keep what is left out) and
    what each service computes between reading and writing its store.
  - `money.rs` holds decimal amounts as mantissa and scale; the arithmetic is
    done by `rust_decimal`, behind wrappers whose contracts say what it gives.
  - `password.rs`, `clock.rs` and `handlers/users.rs` call `argon2`, `chrono`
    and `validator` behind wrappers.
- `app/` is the service around the library: the database pool and queries
  (`sqlx`), the HTTP handlers and their bodies (`axum`, `serde`), token
  signing (`jsonwebtoken`), and the loops that run the registration state
  machines against the database.
- `tests/` exercises the library on concrete values.
