# lottery_program

A ticket lottery kept in two kinds of on-chain accounts: one manager account,
which sets the ticket price, counts the tickets sold and names the buyer of the
winning ticket, and one account per user, which holds a balance and a ticket
count.

- `src/` is the verified library: the account types and their mathematical
  views (`dot::program`), the handler of each instruction, the instructions
  that load, change and store the accounts (`lottery_program`), account
  addresses (`keys`), index helpers (`seahorse_util`) and the laws that span
  several instructions (`laws`).
- `app/` is the on-chain program around it: account validation, reading and
  writing the accounts, logging, and the calls into the token program that the
  library's instructions ask for.
- `tests/` runs the library on concrete accounts.
