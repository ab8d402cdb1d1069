# carbon_ledger

The rules of a carbon credit ledger on Stellar, as verified state machines:

- `carbon_registry`: project registration, verification, rejection,
  suspension and issued/retired totals;
- `carbon_credit`: minting batches with serial numbers, balances, transfers,
  and irreversible retirement with certificates;
- `carbon_marketplace`: listings, single and all-or-nothing bulk purchases;
- `carbon_oracle`: monitoring data, benchmark prices and project flags.

Each contract's storage is a value of the library type of the same name; its
view is a mathematical state and every call's contract says exactly which
state and result follow. `table` holds the keyed storage tables, `host` the
Soroban environment and the SHA-256 digest the ledger takes from it.

`app/` holds the Soroban contracts themselves: they check authorisation, read
the ledger time and the stored entries a call needs, run the verified call,
write back what it changed and publish the events.
