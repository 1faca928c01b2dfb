# funding_escrow

A crowdfunding escrow whose decisions are verified with Verus.

- `src/types.rs`: the refusals (`Error`), the campaign phases (`EscrowState`),
  the stored campaign record and the metadata shown to readers.
- `src/escrow.rs`: `FundingEscrowContract`, the stored campaign and the
  decisions taken on it (initialize, fund, cancel, claim the funds, claim a
  refund, read the phase and the metadata), each with its outcome stated as a
  spec function.
- `src/laws.rs`: laws relating those decisions (single initialization, a single
  payout to the creator, a single refund per contributor, no refund after the
  creator's claim, payouts follow the phase, phases settle).
- `src/deployment.rs`: a whole deployment driven by requests at nondecreasing
  times, and the laws proved of every such run: the escrow never pays out more
  than was deposited, the funds go either to the creator or back to the
  contributors, no contributor is refunded more than they paid in, the
  campaign's terms are fixed once initialized, cancellation and the other
  settled phases are final, and after a refund or the creator's payout (with
  any requests in between) the excluded payouts are refused.
- `app/lib.rs`: the Soroban contract that stores the campaign, checks
  authorizations, moves the tokens and publishes the events around the
  verified decisions.
