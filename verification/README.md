# vault_core

The accounting and the instruction rules of a restaking vault on Solana, as a Verus
library: every function states what it returns and changes, and Verus proves it.

- `src/` — the library. Account types (`vault`, `config`, the tickets, the update
  tracker, the delegation lists), their arithmetic (deposits, withdrawals, fees,
  delegation, slashing, epoch updates), and the decisions of the program's instructions
  (`initialize`, `withdrawal`, `vault_update`, `harvest`, `instructions`). The laws that
  hold of every deposit, withdrawal and update stand as proof functions (`vault_laws`,
  and beside the functions they speak of).
- `tests/` — the tests, on concrete values.
- `app/` — the program around the library: it reads the accounts, calls the library,
  and carries out what it decided through the system and token programs.

Program addresses are derived by `solana_program`; the library states of them only that
the same seeds give the same address.
