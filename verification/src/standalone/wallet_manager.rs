use vstd::prelude::*;
use crate::named::{find_name, lemma_entries_dom, entries_map, names_unique, upsert, value_named};
use super::wallet::Wallet;

verus! {

/// Wallets by name.
#[derive(Debug)]
pub struct WalletManager {
    pub wallets: Vec<(String, Wallet)>,
}

impl WalletManager {
    /// No name is given to two wallets.
    pub open spec fn wf(&self) -> bool {
        names_unique(self.wallets@)
    }

    /// The wallets by name.
    pub open spec fn wallet_map(&self) -> Map<Seq<char>, Wallet> {
        entries_map(self.wallets@)
    }

    pub fn new() -> (manager: Self)
        ensures
            manager.wf(),
            manager.wallet_map() == Map::<Seq<char>, Wallet>::empty(),
    {
        WalletManager { wallets: Vec::new() }
    }

    /// Makes a wallet from `priv_key` and files it under `name`, in place of
    /// any wallet that had that name.
    pub fn new_wallet(&mut self, name: String, priv_key: String)
        requires
            old(self).wf(),
        ensures
            final(self).wf(),
            final(self).wallet_map().dom() == old(self).wallet_map().dom().insert(name@),
            final(self).wallet_map() == old(self).wallet_map().insert(
                name@,
                final(self).wallet_map()[name@],
            ),
            final(self).wallet_map()[name@].private_key == priv_key,
            final(self).wallet_map()[name@].keys_match(),
    {
        let wallet = Wallet::new(priv_key);
        upsert(&mut self.wallets, name, wallet);
    }

    /// Whether a wallet is filed under `name`.
    pub fn has_wallet(&self, name: &String) -> (found: bool)
        requires
            self.wf(),
        ensures
            found == self.wallet_map().dom().contains(name@),
    {
        proof {
            lemma_entries_dom(self.wallets@, name@);
        }
        find_name(&self.wallets, name).is_some()
    }

    /// The wallet filed under `name`, which must exist.
    pub fn get_wallet(&self, name: &String) -> (wallet: &Wallet)
        requires
            self.wf(),
            self.wallet_map().dom().contains(name@),
        ensures
            *wallet == self.wallet_map()[name@],
    {
        value_named(&self.wallets, name)
    }
}

} // verus!
