# vault

A lamport vault for one owner. `src/` is the verified library: the state of
the vault, the accounts that its instructions touch, and for each instruction
(`initialize`, `deposit`, `withdraw`, `close`) the decision it takes, as a
function from the accounts and the instruction's arguments to the new accounts
and the system-program transfer to perform, or the error that refuses it.
`src/laws.rs` states and proves what holds across instructions.

`app/` is the on-chain program around it: account validation, the rent
sysvar, and the transfers themselves.
