# database

The data layer of a service that sells access to language models: who may call
a model, what a call costs, which credit pays for it, and how all of it is
stored and reported.

`src/` is the library. It holds the rules as functions on plain values, each
with a contract that Verus proves:

- credit: `waterfall`, `repositories/credit_allocation`,
  `repositories/credit_adjustment`, `repositories/organization_limits`,
  `repositories/admission_snapshot`
- the model catalogue: `repositories/model`, `model_alias`,
  `model_deprecation`, and the scheduled price changes in `admin_composite`
- conversations, files, connectors, signatures and their statements
- keys, tokens, leases, invitations and organizations
- the encryption of single fields: `field_encryption`
- the cluster: `patroni_discovery`, `cluster_manager`, `connection`
- the reports: `analytics`

Work that alternates with the database is written as steps: a function takes
the state and what the database answered, and gives the next state and what is
to be done. Amounts are whole nano-dollars.

`app/` runs the library against PostgreSQL: pools, TLS, background tasks, the
statements, and the amounts and rates that are fractions.

`tests/` runs the library on concrete values.
