# invilink

Ticketing logic for an event platform on Solana, verified with Verus.

- `src/` is the library. Each instruction of the program is a function over plain
  account values (`state.rs`) whose contract says exactly which error it returns
  and what it leaves in each account:
  - `organizers.rs`: the pool of organizers, managed by the administrator;
  - `events.rs`: creating, updating, activating and deleting events, the registry
    of events, and each event's validators;
  - `seating.rs`: seating maps and their sections, and their seat totals;
  - `tickets.rs`: deciding and recording ticket sales, and activating and
    validating tickets at the door;
  - `ids.rs`: event and ticket identifiers, built from a SHA-256 digest and base64;
  - `encoding.rs`: base64 (RFC 4648) as a specification, with its length and alphabet;
  - `laws.rs`: properties that span several instructions;
  - `pubkey.rs`: 32-byte addresses and searches over lists of them.
- `app/` is the Anchor program: account layouts, instruction contexts and
  handlers that load accounts, call the library, store the accounts back and make
  the transfers, mints and logs.
- `tests/` exercises the library on concrete values.
