# safe_exchange

An escrow for swapping SOL and SPL tokens between two parties on Solana,
as a library verified with Verus.

An initializer opens an exchange by placing an offer (SOL or tokens of one
mint) in escrow and recording what it asks of a named taker (SOL or tokens of
another mint); the initializer can withdraw the offer, or the taker can take
it by paying the asked amount.

- `src/` holds the verified library: the account rules of each instruction
  (signers, program-derived addresses, stored addresses, token balances), the
  seeds of the program-derived accounts, and each instruction as the ordered
  list of ledger actions it performs (`initialize`, `cancel`, `exchange`).
  `ledger` gives those actions a meaning on balances and open accounts: an
  action fails where the system or token program refuses it for the reasons
  the ledger lists (an account already open or not open, a short balance, a
  frozen account, another mint, the wrong authority); signatures are left to
  the account rules. Over it `balance_laws` proves what an instruction does
  and when it completes: opening escrows the offer and fails over an open
  exchange, a withdrawal returns what was escrowed and the rents, a take swaps
  exactly the two amounts, and an exchange is settled at most once. `laws`
  proves that only the recorded parties, signing, pass the account rules of a
  withdrawal or a take, and that the accounts of an opened offer pass them.
- `app/` is the on-chain program: Anchor reads the accounts, the library
  decides, and the program performs the actions through the system and token
  programs.
