# svm_core

Verified core rules of a virtual machine for account-based transactions.

- `svm_rent_collector`, with `rent`, `rent_state`, `epoch_schedule` and `float_bits`:
  which accounts owe rent, collecting it, and which changes of rent state a transaction may make.
- `account_saver`, with `message`, `transaction_execution_result`, `rollback_accounts`
  and `nonce_info`: the accounts to store after a batch of transactions.
- `secp256r1`: the checks of the secp256r1 precompile that need no curve arithmetic.
- `transaction_processing_callback`: what transaction processing asks of the runtime.
- `time` and `utils`: a clock that stands still.

`src/` is the library. `app/` connects it with the types of the Solana crates, and
computes in floating point the rent that falls due over a number of years. `tests/`
runs the library together with those crates.
