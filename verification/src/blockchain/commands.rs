use vstd::prelude::*;
use crate::text::{chars_of, is_word, split_spaces, split_spaces_spec, trim_bounds, trim_spec};

verus! {

/// A command of the single-node command line.
#[derive(Debug, PartialEq, Eq)]
pub enum ClientCommand {
    Mine,
    SaveChain,
    LoadChain,
    SaveWallets,
    LoadWallets,
    /// A new wallet with this name.
    NewWallet(String),
    /// A transfer from the first wallet to the second of the amount written
    /// in the third word.
    Tx(String, String, String),
    PrintChain,
    ListWallets,
    /// The first word names no command.
    Unrecognized,
    /// The command lacks a word it needs.
    MissingArgument,
}

/// The words of a command line: the line without leading and trailing white
/// space, split at every single space.
pub open spec fn client_args(line: Seq<char>) -> Seq<Seq<char>> {
    split_spaces_spec(trim_spec(line))
}

/// Reads a command line: the first word names the command, the words after it
/// are its arguments.
pub fn parse_client_command(line: &str) -> (command: ClientCommand)
    ensures
        ({
            let args = client_args(line@);
            match command {
                ClientCommand::Mine => args[0] == "mine"@,
                ClientCommand::SaveChain => args[0] == "save_chain"@,
                ClientCommand::LoadChain => args[0] == "load_chain"@,
                ClientCommand::SaveWallets => args[0] == "save_wallets"@,
                ClientCommand::LoadWallets => args[0] == "load_wallets"@,
                ClientCommand::NewWallet(name) => args[0] == "new_wallet"@ && args.len() >= 2
                    && name@ == args[1],
                ClientCommand::Tx(from, to, amount) => args[0] == "tx"@ && args.len() >= 4 && from@
                    == args[1] && to@ == args[2] && amount@ == args[3],
                ClientCommand::PrintChain => args[0] == "print_chain"@,
                ClientCommand::ListWallets => args[0] == "list_wallets"@,
                ClientCommand::MissingArgument => (args[0] == "new_wallet"@ && args.len() < 2) || (
                args[0] == "tx"@ && args.len() < 4),
                ClientCommand::Unrecognized => args[0] != "mine"@ && args[0] != "save_chain"@
                    && args[0] != "load_chain"@ && args[0] != "save_wallets"@ && args[0]
                    != "load_wallets"@ && args[0] != "new_wallet"@ && args[0] != "tx"@ && args[0]
                    != "print_chain"@ && args[0] != "list_wallets"@,
            }
        }),
{
    let chars = chars_of(line);
    let (start, end) = trim_bounds(&chars);
    let mut args = split_spaces(&chars, start, end);
    let ghost spec_args = client_args(line@);
    assert(spec_args.len() >= 1) by {
        assert(args@.len() == spec_args.len());
        crate::text::lemma_split_spaces_nonempty(trim_spec(line@));
    }
    assert(args@[0]@ == spec_args[0]);
    let n = args.len();
    if is_word(&args[0], "mine") {
        ClientCommand::Mine
    } else if is_word(&args[0], "save_chain") {
        ClientCommand::SaveChain
    } else if is_word(&args[0], "load_chain") {
        ClientCommand::LoadChain
    } else if is_word(&args[0], "save_wallets") {
        ClientCommand::SaveWallets
    } else if is_word(&args[0], "load_wallets") {
        ClientCommand::LoadWallets
    } else if is_word(&args[0], "new_wallet") {
        if n < 2 {
            ClientCommand::MissingArgument
        } else {
            assert(args@[1]@ == spec_args[1]);
            ClientCommand::NewWallet(args.remove(1))
        }
    } else if is_word(&args[0], "tx") {
        if n < 4 {
            ClientCommand::MissingArgument
        } else {
            assert(args@[1]@ == spec_args[1]);
            assert(args@[2]@ == spec_args[2]);
            assert(args@[3]@ == spec_args[3]);
            let amount = args.remove(3);
            let to = args.remove(2);
            let from = args.remove(1);
            ClientCommand::Tx(from, to, amount)
        }
    } else if is_word(&args[0], "print_chain") {
        ClientCommand::PrintChain
    } else if is_word(&args[0], "list_wallets") {
        ClientCommand::ListWallets
    } else {
        ClientCommand::Unrecognized
    }
}

} // verus!
