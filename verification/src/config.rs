//! Reading the configuration of a search from its text form.

use crate::address::{CodeHash, FactoryAddress};
use crate::hexfmt::{parse_fixed, parse_result, ParseError};
use crate::record::SearchConfig;
use vstd::prelude::*;

verus! {

/// A configuration that cannot be used: which value is malformed, and how.
#[derive(Debug, Clone, Copy, PartialEq, Eq)]
pub enum ConfigError {
    /// The factory address is not `0x` and 40 hex digits.
    FactoryAddress(ParseError),
    /// The code hash is not `0x` and 64 hex digits.
    CodeHash(ParseError),
}

/// What `SearchConfig::parse` owes for the two texts: the bytes of the
/// factory address and of the code hash, or the first fault, the factory
/// address being read first.
pub open spec fn config_result(factory_address: Seq<char>, code_hash: Seq<char>) -> Result<
    (Seq<u8>, Seq<u8>),
    ConfigError,
> {
    match parse_result(factory_address, 20) {
        Err(fault) => Err(ConfigError::FactoryAddress(fault)),
        Ok(factory) => match parse_result(code_hash, 32) {
            Err(fault) => Err(ConfigError::CodeHash(fault)),
            Ok(hash) => Ok((factory, hash)),
        },
    }
}

/// Parses a factory address: `0x` and 40 hex digits.
pub fn parse_factory_address(text: &str) -> (parsed: Result<FactoryAddress, ParseError>)
    ensures
        match parsed {
            Ok(address) => parse_result(text@, 20) == Ok::<Seq<u8>, ParseError>(address@),
            Err(fault) => parse_result(text@, 20) == Err::<Seq<u8>, ParseError>(fault),
        },
{
    match parse_fixed::<20>(text) {
        Ok(bytes) => Ok(FactoryAddress { bytes }),
        Err(fault) => Err(fault),
    }
}

/// Parses a code hash: `0x` and 64 hex digits.
pub fn parse_code_hash(text: &str) -> (parsed: Result<CodeHash, ParseError>)
    ensures
        match parsed {
            Ok(hash) => parse_result(text@, 32) == Ok::<Seq<u8>, ParseError>(hash@),
            Err(fault) => parse_result(text@, 32) == Err::<Seq<u8>, ParseError>(fault),
        },
{
    match parse_fixed::<32>(text) {
        Ok(bytes) => Ok(CodeHash { bytes }),
        Err(fault) => Err(fault),
    }
}

impl SearchConfig {
    /// Validates a configuration given as text. The target is taken as it
    /// is: one above 40 is a search that no address can end.
    pub fn parse(
        factory_address: &str,
        deployment_code_hash: &str,
        target_zero_count: usize,
    ) -> (parsed: Result<SearchConfig, ConfigError>)
        ensures
            match parsed {
                Ok(config) => config_result(factory_address@, deployment_code_hash@) == Ok::<
                    (Seq<u8>, Seq<u8>),
                    ConfigError,
                >((config.factory@, config.code_hash@)) && config.target_zeros
                    == target_zero_count,
                Err(fault) => config_result(factory_address@, deployment_code_hash@) == Err::<
                    (Seq<u8>, Seq<u8>),
                    ConfigError,
                >(fault),
            },
    {
        let factory = match parse_factory_address(factory_address) {
            Ok(factory) => factory,
            Err(fault) => {
                return Err(ConfigError::FactoryAddress(fault));
            },
        };
        let code_hash = match parse_code_hash(deployment_code_hash) {
            Ok(code_hash) => code_hash,
            Err(fault) => {
                return Err(ConfigError::CodeHash(fault));
            },
        };
        Ok(SearchConfig { factory, code_hash, target_zeros: target_zero_count })
    }
}

} // verus!
