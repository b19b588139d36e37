use scilla::commands::{AccountCommand, ClusterCommand, Command, ConfigCommand, StakeCommand, VoteCommand};
use scilla::config::{
    parse_commitment_choice, parse_config, parse_rpc_choice, parse_yes_no, render_config,
    CommitmentChoice, CommitmentLevel, ConfigError, RpcChoice, ScillaConfig, YesNo,
};
use scilla::history::{block_time_text, history_report, short_signature, SignatureRecord};

#[test]
fn command_descriptions_are_fixed() {
    assert_eq!(AccountCommand::Balance.description(), "Get wallet balance");
    assert_eq!(AccountCommand::Airdrop.description(), "Request SOL from faucet");
    assert_eq!(
        StakeCommand::Deactivate.spinner_msg(),
        "Deactivating stake (cooldown starting)…"
    );
    assert_eq!(
        StakeCommand::Withdraw.spinner_msg(),
        "Withdrawing SOL from deactivated stake…"
    );
    assert_eq!(ConfigCommand::Show.spinner_msg(), "Displaying current Scilla configuration…");
    assert_eq!(ClusterCommand::Version.spinner_msg(), "Fetching cluster version…");
    assert_eq!(VoteCommand::Show.spinner_msg(), "Fetching vote account details…");
    // the top-level menu owns its variants
    let _ = Command::Cluster(ClusterCommand::Slot);
    let _ = Command::Stake(StakeCommand::History);
    let _ = Command::Account(AccountCommand::Transfer);
    let _ = Command::Vote(VoteCommand::GoBack);
    let _ = Command::ScillaConfig(ConfigCommand::GoBack);
    let _ = Command::Exit;
}

#[test]
fn config_round_trips_through_its_stored_text() {
    let config = ScillaConfig {
        rpc_url: String::from("https://api.devnet.solana.com"),
        commitment_level: CommitmentLevel::Confirmed,
        keypair_path: String::from("/home/user/.config/solana/id.json"),
    };
    let text = render_config(&config);
    assert_eq!(
        text,
        "rpc_url = \"https://api.devnet.solana.com\"\ncommitment_level = \"confirmed\"\nkeypair_path = \"/home/user/.config/solana/id.json\"\n"
    );
    let back = parse_config(&text).unwrap();
    assert_eq!(back.rpc_url, config.rpc_url);
    assert_eq!(back.keypair_path, config.keypair_path);
    assert!(matches!(back.commitment_level, CommitmentLevel::Confirmed));
}

#[test]
fn config_round_trip_tolerates_any_quote_free_values() {
    let config = ScillaConfig {
        rpc_url: String::from("http://localhost:8899/a path?x=1&y=2"),
        commitment_level: CommitmentLevel::Finalized,
        keypair_path: String::from("relative/path with spaces/id.json"),
    };
    let back = parse_config(&render_config(&config)).unwrap();
    assert_eq!(back.rpc_url, config.rpc_url);
    assert_eq!(back.keypair_path, config.keypair_path);
    assert!(matches!(back.commitment_level, CommitmentLevel::Finalized));
}

#[test]
fn config_parser_rejects_broken_text() {
    assert!(matches!(parse_config(""), Err(ConfigError::Malformed)));
    assert!(matches!(parse_config("rpc_url = \"x\"\n"), Err(ConfigError::Malformed)));
    let odd = "rpc_url = \"x\"\ncommitment_level = \"sometimes\"\nkeypair_path = \"p\"\n";
    assert!(matches!(parse_config(odd), Err(ConfigError::UnknownCommitment)));
}

#[test]
fn menu_choices_map_to_presets() {
    assert!(matches!(parse_rpc_choice("1", false), RpcChoice::Devnet));
    assert!(matches!(parse_rpc_choice("2", false), RpcChoice::Mainnet));
    assert!(matches!(parse_rpc_choice("3", false), RpcChoice::Testnet));
    assert!(matches!(parse_rpc_choice("4", false), RpcChoice::Custom));
    assert!(matches!(parse_rpc_choice("5", false), RpcChoice::Invalid));
    assert!(matches!(parse_rpc_choice("5", true), RpcChoice::KeepCurrent));
    assert!(matches!(parse_rpc_choice("devnet", false), RpcChoice::Invalid));

    assert!(matches!(
        parse_commitment_choice("1", false),
        CommitmentChoice::Chosen(CommitmentLevel::Processed)
    ));
    assert!(matches!(
        parse_commitment_choice("3", false),
        CommitmentChoice::Chosen(CommitmentLevel::Finalized)
    ));
    assert!(matches!(parse_commitment_choice("4", true), CommitmentChoice::KeepCurrent));
    assert!(matches!(parse_commitment_choice("4", false), CommitmentChoice::Invalid));

    assert!(matches!(parse_yes_no("y"), YesNo::Yes));
    assert!(matches!(parse_yes_no("YES"), YesNo::Yes));
    assert!(matches!(parse_yes_no("n"), YesNo::No));
    assert!(matches!(parse_yes_no("No"), YesNo::No));
    assert!(matches!(parse_yes_no("maybe"), YesNo::Invalid));
}

fn record(slot: u64, signature: &str, failed: bool, block_time: Option<i64>) -> SignatureRecord {
    SignatureRecord { slot, signature: String::from(signature), failed, block_time }
}

#[test]
fn history_keeps_order_and_takes_the_limit() {
    let mut records = Vec::new();
    for i in 0..25u64 {
        records.push(record(1000 - i, "abcdefgh123456789xyzABCDEFGH", false, None));
    }
    let report = history_report(&records, 20);
    assert_eq!(report.len(), 20);
    // newest first, as handed in
    assert_eq!(report[0].slot, 1000);
    assert_eq!(report[19].slot, 981);
    let mut few = Vec::new();
    for i in 0..3u64 {
        few.push(record(i, "abcdefgh123456789xyzABCDEFGH", false, None));
    }
    let short = history_report(&few, 20);
    assert_eq!(short.len(), 3);
}

#[test]
fn signatures_shorten_around_an_ellipsis() {
    assert_eq!(short_signature("abcdefgh123456789xyzABCDEFGH"), "abcdefgh...ABCDEFGH".to_string());
    // too short to shorten: kept whole
    assert_eq!(short_signature("abc"), "abc".to_string());
}

#[test]
fn block_times_render_fixed_utc_text() {
    assert_eq!(block_time_text(&None), "~");
    // chrono's documented example: 2015-05-15 00:00:00 UTC
    assert_eq!(block_time_text(&Some(1_431_648_000)), "2015-05-15 00:00:00");
    assert_eq!(block_time_text(&Some(0)), "1970-01-01 00:00:00");
    // far outside the representable range
    assert_eq!(block_time_text(&Some(i64::MAX)), "Invalid time");
}

#[test]
fn history_entries_carry_status_and_time() {
    let records = vec![
        record(5, "abcdefgh123456789xyzABCDEFGH", false, Some(1_431_648_000)),
        record(4, "short", true, None),
    ];
    let report = history_report(&records, 20);
    assert_eq!(report.len(), 2);
    assert!(report[0].succeeded);
    assert_eq!(report[0].block_time_text, "2015-05-15 00:00:00");
    assert!(!report[1].succeeded);
    assert_eq!(report[1].block_time_text, "~");
    assert_eq!(report[1].short_signature, "short");
}
