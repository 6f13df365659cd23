# contract

A NEAR contract for sharing experiences, with its logic verified in Verus.

Users register with a profile, publish experiences (a video moment with a
title, description, url and topic), optionally funding them with a deposit.
Other users give a point of view on a funded (active) experience, and the
owner pays the reward to one of them, which closes the experience.

Layout:

- `src/structs.rs`: the records (`User`, `Experience`, `Status`) and the errors.
- `src/model.rs`: the mathematical state (`ContractView`), the invariant
  `wf`, and what each request does to the state (`*_spec`, `apply`).
- `src/contract.rs` and `src/contract/`: the executable state (`Contract<R>`),
  its requests (`setters.rs`, deletions in `contract.rs`) and its getters
  (`enumerations.rs`), each proved to do what the model says.
- `src/laws.rs`: what holds across requests, one at a time and over any
  sequence of them (`run`): the invariant is kept, statuses only move
  forward and only by the request meant for each move, an experience pays
  out once, numbers are never given twice, topic lists and the list of users
  hold exactly what publications and registrations put there, a point of
  view is never withdrawn, what is written is read back.
- `src/account.rs`: the account-name rule, checked with `near_sdk`.
- `app/`: the contract as deployed: it reads the signer and the deposit from
  the runtime, keeps in storage the requests the library took (loading hands
  them to the library again, so the state in use is always one the library
  reached from its initial state), computes fee and rewards in
  floating point (the library carries rewards as an opaque `R`), and sends
  the payments.
