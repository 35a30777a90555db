//! The expression that builds a package from its sources, made from the
//! address of the sources.
//!
//! The address is analysed ([`fetcher::analyze_url`]), the hash of the
//! sources is asked of a program ([`fetcher::calculate_hash`]), and the
//! expression is written for the kind of source
//! ([`expression::generate_expression`]).

pub mod expression;
pub mod fetcher;
