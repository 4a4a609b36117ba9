use vstd::prelude::*;

verus! {

/// The durability guarantee asked of the cluster when querying state or
/// waiting for a submitted transaction.
#[derive(Clone, Copy, PartialEq, Eq, Structural, Debug)]
pub enum Commitment {
    Processed,
    Confirmed,
    Finalized,
}

/// What a client program needs to run: where the cluster is, which wallet
/// pays, how much to move, and the commitment level to wait for.
#[derive(Clone, Debug)]
pub struct Config {
    pub cluster_url: String,
    pub wallet_path: String,
    pub amount: u64,
    pub commitment: Commitment,
}

impl Config {
    pub fn new(cluster_url: String, wallet_path: String, amount: u64, commitment: Commitment) -> (c:
        Config)
        ensures
            c.cluster_url@ == cluster_url@,
            c.wallet_path@ == wallet_path@,
            c.amount == amount,
            c.commitment == commitment,
    {
        Config { cluster_url, wallet_path, amount, commitment }
    }
}

} // verus!
