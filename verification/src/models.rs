//! The request and the answer of a run, as a caller exchanges them.

use vstd::prelude::*;
use crate::decode::lines_view;

verus! {

/// How the chain state before the target transaction is rebuilt.
#[derive(Clone, Copy, Debug, PartialEq, Eq, Hash, Structural)]
pub enum MethodType {
    /// By replaying the earlier transactions of the block on the fork.
    Plain,
    /// By applying the traced pre-state of the transaction.
    Prestate,
}

/// The method that a number selects: 0 the replay, any other number the
/// traced pre-state.
pub open spec fn method_of(v: u8) -> MethodType {
    if v == 0 {
        MethodType::Plain
    } else {
        MethodType::Prestate
    }
}

impl From<u8> for MethodType {
    fn from(v: u8) -> (r: MethodType) {
        match v {
            0 => MethodType::Plain,
            _ => MethodType::Prestate,
        }
    }
}

impl vstd::std_specs::convert::FromSpecImpl<u8> for MethodType {
    open spec fn obeys_from_spec() -> bool {
        true
    }

    open spec fn from_spec(v: u8) -> MethodType {
        method_of(v)
    }
}

impl Default for MethodType {
    fn default() -> (r: MethodType)
        ensures
            r == MethodType::Prestate,
    {
        MethodType::Prestate
    }
}

/// A request for one run.
#[derive(Debug, PartialEq, Eq)]
pub struct Log3Json {
    /// The chain of the transaction.
    pub chainid: u64,
    /// The key for the block explorer that holds the contract's source.
    pub etherscan_api_key: String,
    /// The address of the contract whose code is instrumented.
    pub contract_address: String,
    /// The hash of the transaction to execute again.
    pub tx_hash: String,
    /// The endpoint of the chain's node.
    pub endpoint: String,
    /// How to rebuild the state; the traced pre-state where none is given.
    pub method: Option<MethodType>,
}

impl Clone for Log3Json {
    fn clone(&self) -> (r: Log3Json)
        ensures
            r == *self,
    {
        Log3Json {
            chainid: self.chainid,
            etherscan_api_key: self.etherscan_api_key.clone(),
            contract_address: self.contract_address.clone(),
            tx_hash: self.tx_hash.clone(),
            endpoint: self.endpoint.clone(),
            method: self.method,
        }
    }
}

impl Log3Json {
    /// The method of the request.
    pub fn method_or_default(&self) -> (r: MethodType)
        ensures
            r == (match self.method {
                Some(m) => m,
                None => MethodType::Prestate,
            }),
    {
        match self.method {
            Some(m) => m,
            None => MethodType::Prestate,
        }
    }
}

/// The answer of one run.
#[derive(Debug, PartialEq, Eq)]
pub struct Log3Res {
    /// The diagnostic lines, in the order in which they were emitted.
    pub log_lines: Vec<String>,
}

impl Clone for Log3Res {
    fn clone(&self) -> (r: Log3Res)
        ensures
            lines_view(r.log_lines@) == lines_view(self.log_lines@),
    {
        let mut log_lines: Vec<String> = Vec::new();
        let mut i: usize = 0;
        while i < self.log_lines.len()
            invariant
                i <= self.log_lines.len(),
                lines_view(log_lines@) == lines_view(self.log_lines@).take(i as int),
            decreases self.log_lines.len() - i,
        {
            let ghost before = lines_view(log_lines@);
            let line = self.log_lines[i].clone();
            log_lines.push(line);
            assert(lines_view(log_lines@) =~= before.push(line@));
            i += 1;
            assert(lines_view(log_lines@) =~= lines_view(self.log_lines@).take(i as int));
        }
        assert(lines_view(self.log_lines@).take(self.log_lines.len() as int) =~= lines_view(
            self.log_lines@,
        ));
        Log3Res { log_lines }
    }
}

} // verus!
