# escrow

An escrow contract for mentoring sessions. A learner deposits tokens for a
session; the deposit is released to the mentor (at once, in parts, or by anyone
once the session is long over), refunded, or, after a dispute, split between the
two by the admin. A platform fee goes to a treasury on every release.

`src/` is the contract itself, verified with Verus. A call is a function of what
it sees of the chain (`Env`): it returns what the chain is to do, in order, and
the result of the call (`Outcome`).

- `types`, `error`, `ledger`, `host`: the values, the errors, the entries on the
  ledger, and what passes between a call and the chain.
- `fees`: the fee and the split of a dispute.
- `model`: what each call returns and asks for, as specifications.
- `contract`: the calls.
- `call`: a call as a value, the entries that it reads and what it leaves behind.
- `laws`: what holds of every call and of every history of calls. Among other
  things: the contract holds what it owes, every part of a deposit is accounted
  for, a closed escrow is final, tokens move only on the word of those who may
  move them, and what is written is read back.

`app/` puts the contract on Soroban: it loads the entries that a call reads, runs
the call, and performs what it asks for. `tests/` runs the calls on concrete
values.
