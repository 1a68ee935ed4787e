use ocoin::blockchain::commands::{parse_client_command, ClientCommand};
use ocoin::mempool::command::{parse_pool_command, PoolCommand};
use ocoin::text::{chars_of, split_spaces, starts_with, trim_bounds, white_space, words};

fn strings(v: Vec<String>) -> Vec<String> {
    v
}

#[test]
fn white_space_matches_std() {
    for c in ['\t', '\n', ' ', '\u{a0}', '\u{2003}', '\u{3000}', 'a', '0', '\u{200b}', 'é'] {
        assert_eq!(white_space(c), c.is_whitespace());
    }
}

#[test]
fn trim_and_split_match_std() {
    for line in ["  tx a  b 3 \n", "", "   ", "mine", " a\u{a0}b "] {
        let chars = chars_of(line);
        let (s, e) = trim_bounds(&chars);
        let trimmed: String = chars[s..e].iter().collect();
        assert_eq!(trimmed, line.trim());
        let pieces = strings(split_spaces(&chars, s, e));
        let expected: Vec<String> = line.trim().split(" ").map(|p| p.to_string()).collect();
        assert_eq!(pieces, expected);
    }
}

#[test]
fn words_match_split_whitespace() {
    for line in ["newtx  Eli\tAri 10", "", "  ", "a", " x y "] {
        let chars = chars_of(line);
        let expected: Vec<String> = line.split_whitespace().map(|p| p.to_string()).collect();
        assert_eq!(words(&chars), expected);
    }
}

#[test]
fn starts_with_prefix() {
    assert!(starts_with(&chars_of("newtx a b"), "newtx"));
    assert!(!starts_with(&chars_of("new"), "newtx"));
    assert!(!starts_with(&chars_of("txlist"), "newtx"));
}

#[test]
fn client_commands_are_read() {
    assert_eq!(parse_client_command("mine\n"), ClientCommand::Mine);
    assert_eq!(parse_client_command("  save_chain "), ClientCommand::SaveChain);
    assert_eq!(parse_client_command("load_chain"), ClientCommand::LoadChain);
    assert_eq!(parse_client_command("save_wallets"), ClientCommand::SaveWallets);
    assert_eq!(parse_client_command("load_wallets"), ClientCommand::LoadWallets);
    assert_eq!(parse_client_command("print_chain"), ClientCommand::PrintChain);
    assert_eq!(parse_client_command("list_wallets"), ClientCommand::ListWallets);
    assert_eq!(parse_client_command("new_wallet bob\n"), ClientCommand::NewWallet("bob".to_string()));
    assert_eq!(
        parse_client_command("tx alice bob 2.5"),
        ClientCommand::Tx("alice".to_string(), "bob".to_string(), "2.5".to_string())
    );
}

#[test]
fn client_commands_missing_or_unknown() {
    assert_eq!(parse_client_command("new_wallet"), ClientCommand::MissingArgument);
    assert_eq!(parse_client_command("tx alice bob"), ClientCommand::MissingArgument);
    assert_eq!(parse_client_command("dance"), ClientCommand::Unrecognized);
    assert_eq!(parse_client_command(""), ClientCommand::Unrecognized);
    // Two spaces make an empty word, as `split(" ")` does.
    assert_eq!(
        parse_client_command("tx  alice bob 1"),
        ClientCommand::Tx("".to_string(), "alice".to_string(), "bob".to_string())
    );
}

#[test]
fn pool_commands_are_read() {
    assert_eq!(
        parse_pool_command("newtx Eli Ari 10"),
        PoolCommand::NewTx("Eli".to_string(), "Ari".to_string(), "10".to_string())
    );
    assert_eq!(parse_pool_command("newtx Eli"), PoolCommand::MissingArgument);
    assert_eq!(parse_pool_command("txlist"), PoolCommand::TxList);
    assert_eq!(parse_pool_command("reqsync"), PoolCommand::ReqSync);
    assert_eq!(parse_pool_command("broadcastsync"), PoolCommand::BroadcastSync);
    assert_eq!(parse_pool_command("txlist "), PoolCommand::Unrecognized);
    assert_eq!(parse_pool_command("hello"), PoolCommand::Unrecognized);
}
