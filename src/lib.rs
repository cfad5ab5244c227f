//! Screens companies by their ticker symbols: reads each company's figures
//! from the quote service's JSON documents, judges them against a policy on
//! market cap, net debt and free cash flow, and keeps the counts of a batch
//! run that has a bounded number of symbols in flight.
pub mod batch;
pub mod company;
pub mod evaluate;
mod outside;
pub mod symbols;
