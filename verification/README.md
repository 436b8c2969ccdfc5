# flash_sync

Off-chain side of FlashSync, a lending platform on Fuel whose vault funds
flash loan predicates.

- `src/` (verified with Verus): asset ids (`ids`), the configurations of the
  flash loan script, the admin script and the flash loan predicate and the
  scripts' bytecode hashes (`config`), the SHA-256 wrapper (`digest`), and the
  set-up of a local deployment as a state machine (`setup`) whose actions say
  what to deploy or load next and with which parameters.
- `app/`: the Fuel network work (launching wallets, deploying contracts,
  loading scripts and the predicate), driven by the library's set-up.
- `tests/`: tests of the library on concrete values.
