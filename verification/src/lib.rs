//! A market-hours oracle: a pure clock that decides whether the US equity
//! market is open at a given Unix timestamp, and a two-state machine that
//! holds the current transfer verdict and flips it exactly once per market
//! transition, paying a fixed reward for timely updates.

pub mod market_clock;
pub mod oracle;
