use vstd::prelude::*;
use crate::named::{find_name, lemma_entries_dom, absorb, entries_map, names_unique, upsert, value_named};
use super::transaction::minting_account;
use super::wallet::Wallet;

verus! {

/// Combining a manager with a copy of itself changes none of its wallets.
pub proof fn lemma_combine_with_own_copy(manager: WalletManager, copy: WalletManager)
    requires
        copy.wallets@ == manager.wallets@,
    ensures
        manager.wallet_map().union_prefer_right(copy.wallet_map()) == manager.wallet_map(),
{
    assert(manager.wallet_map().union_prefer_right(copy.wallet_map()) =~= manager.wallet_map());
}

/// Wallets by name. The wallet named "0" signs the coins that mining creates.
#[derive(Debug)]
pub struct WalletManager {
    pub wallets: Vec<(String, Wallet)>,
}

impl Clone for WalletManager {
    fn clone(&self) -> (copy: Self)
        ensures
            copy.wallets@ == self.wallets@,
    {
        let mut wallets: Vec<(String, Wallet)> = Vec::new();
        let mut i: usize = 0;
        while i < self.wallets.len()
            invariant
                i <= self.wallets@.len(),
                wallets@ =~= self.wallets@.take(i as int),
            decreases self.wallets@.len() - i,
        {
            let entry = &self.wallets[i];
            wallets.push((entry.0.clone(), entry.1.clone()));
            i = i + 1;
            assert(wallets@ =~= self.wallets@.take(i as int));
        }
        assert(self.wallets@.take(i as int) =~= self.wallets@);
        WalletManager { wallets }
    }
}

impl WalletManager {
    /// No name is given to two wallets.
    pub open spec fn wf(&self) -> bool {
        names_unique(self.wallets@)
    }

    /// The wallets by name.
    pub open spec fn wallet_map(&self) -> Map<Seq<char>, Wallet> {
        entries_map(self.wallets@)
    }

    /// A manager that holds only the minting wallet "0", with a fresh key.
    pub fn new() -> (manager: Self)
        ensures
            manager.wf(),
            manager.wallet_map().dom() =~= Set::empty().insert(minting_account()),
            manager.wallet_map()[minting_account()].fresh_key_pair(),
    {
        let mut wallet_manager = WalletManager { wallets: Vec::new() };
        let mint = "0".to_owned();
        proof {
            reveal_strlit("0");
            assert(mint@ =~= minting_account());
        }
        wallet_manager.new_wallet(mint);
        wallet_manager
    }

    /// Files a wallet with a fresh key under `name`, in place of any wallet
    /// that had that name.
    pub fn new_wallet(&mut self, name: String)
        requires
            old(self).wf(),
        ensures
            final(self).wf(),
            final(self).wallet_map().dom() =~= old(self).wallet_map().dom().insert(name@),
            forall|n: Seq<char>|
                n != name@ && #[trigger] old(self).wallet_map().dom().contains(n)
                    ==> final(self).wallet_map()[n] == old(self).wallet_map()[n],
            final(self).wallet_map()[name@].fresh_key_pair(),
    {
        let wallet = Wallet::new();
        upsert(&mut self.wallets, name, wallet);
    }

    /// Whether a wallet is filed under `name`.
    pub fn has_wallet(&self, name: &String) -> (found: bool)
        requires
            self.wf(),
        ensures
            found == self.wallet_map().dom().contains(name@),
    {
        proof {
            lemma_entries_dom(self.wallets@, name@);
        }
        find_name(&self.wallets, name).is_some()
    }

    /// The wallet filed under `name`, which must exist.
    pub fn get_wallet(&self, name: &String) -> (wallet: &Wallet)
        requires
            self.wf(),
            self.wallet_map().dom().contains(name@),
        ensures
            *wallet == self.wallet_map()[name@],
    {
        value_named(&self.wallets, name)
    }

    /// Takes over every wallet of `wallet_manager`; where both have a wallet
    /// of the same name, the one of `wallet_manager` stays.
    pub fn combine(&mut self, wallet_manager: WalletManager)
        requires
            old(self).wf(),
        ensures
            final(self).wf(),
            final(self).wallet_map() =~= old(self).wallet_map().union_prefer_right(
                wallet_manager.wallet_map(),
            ),
    {
        absorb(&mut self.wallets, wallet_manager.wallets);
    }
}

} // verus!
