use vstd::prelude::*;

verus! {

/// Which prover proves transactions.
#[derive(Clone, Debug, PartialEq, Eq)]
pub enum ProverChoice {
    Local,
    Remote { endpoint: String },
}

/// The client's settings: where the node and the store are, the default
/// account, the token-symbol table, and an optional remote prover.
#[derive(Clone, Debug)]
pub struct ClientConfig {
    pub rpc_endpoint: String,
    pub store_path: String,
    pub default_account_id: Option<String>,
    pub token_symbol_map_filepath: String,
    pub remote_prover_endpoint: Option<String>,
}

impl ClientConfig {
    /// A remote prover when an endpoint is configured, else a local one.
    pub fn prover(&self) -> (r: ProverChoice)
        ensures
            self.remote_prover_endpoint is None ==> r is Local,
            self.remote_prover_endpoint matches Some(e) ==> (r matches ProverChoice::Remote {
                endpoint,
            } && endpoint@ == e@),
    {
        match &self.remote_prover_endpoint {
            Some(e) => ProverChoice::Remote { endpoint: e.clone() },
            None => ProverChoice::Local,
        }
    }
}

} // verus!
