# lending_protocol

A lending protocol for Solana: users deposit tokens into sub markets of a token
reserve, earn interest, borrow against their deposits up to a loan-to-value limit,
repay, and are liquidated when their debt outgrows their collateral. Sub market
owners, the solvency treasurer and the liquidation treasurer claim the fees the
activity generates.

## Layout

- `src/` is the library, verified with Verus: the accounts (`structs`), the interest
  and rate arithmetic (`rates`, `interest`, `user_interest`, `fixed_point`), oracle
  prices (`oracle`), account checks (`validation`, `initialization`), the steps the
  instructions share (`steps`), the instructions themselves (`lending`,
  `liquidation`, `cross_liquidation`, `health`, `fees`, `admin`), the encoding of
  mocked oracle quotes (`price_mock`), and the laws that hold across instructions
  (`laws`). Every instruction is a function from the accounts it reads to the
  accounts it writes and the transfers it asks for.
- `tests/` runs the library on concrete accounts.
- `app/` is the on-chain program: it decodes the accounts an instruction is handed,
  calls the library, writes the accounts back and performs the token transfers.
