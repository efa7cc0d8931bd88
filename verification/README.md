# ardi-agent

The command line agent of the Ardi WorkNet: it checks the environment, stakes, commits answers to
riddles, reveals them, mints the tokens that it won, and trades them. Each command prints one JSON
document; `_internal.next_command` says how to go on.

## Layout

- `src/` is the library, verified by Verus. A command is a machine: it asks for one action at a time
  (`flow::Action`), is handed the reply (`flow::Reply`), and ends with what is to be printed or with a
  fault. The contract of each `step` says what comes next for every stage and every reply.
  - `text`, `num`, `bytes`, `u256`, `address`: values.
  - `json`, `schema`, `output`, `fault`: documents and errors.
  - `chain`, `known`, `tx`, `rpc`: contract calls, transactions, chain nodes.
  - `client`, `awp_rpc`, `awp_register`, `wallet`, `auth`: the services around the agent.
  - `state`: the file of commits that wait to be revealed.
  - `cmd`: the commands.
- `app/` performs the actions: HTTP, files, processes, the clock, the terminal, and the floating-point
  form in which amounts are shown. It tells what it does on standard error, in detail where `ARDI_DEBUG`
  is set.
- `tests/` runs the library against scripted replies.

Public proof functions whose names begin with `law_` state what holds across functions.
