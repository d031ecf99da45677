use lake_pulse::configs::ChainId;
use lake_pulse::configs::Opts;
use lake_pulse::configs::RunArgs;

fn opts_for(chain_id: ChainId) -> Opts {
    Opts {
        http_port: 3030,
        telegram_token: None,
        chat_id: Vec::new(),
        stats_interval_sec: 10,
        chain_id,
    }
}

#[test]
fn chain_labels() {
    assert_eq!(opts_for(ChainId::Mainnet(RunArgs { block_height: 1 })).chain_id(), "mainnet");
    assert_eq!(opts_for(ChainId::Testnet(RunArgs { block_height: 2 })).chain_id(), "testnet");
    assert_eq!(opts_for(ChainId::Localnet(RunArgs { block_height: 3 })).chain_id(), "localnet");
}

#[test]
fn start_height_follows_the_selection() {
    let opts = opts_for(ChainId::Mainnet(RunArgs { block_height: 88_000_000 }));
    assert_eq!(opts.start_block_height(), 88_000_000);
}

#[test]
fn notifications_need_token_and_recipients() {
    let mut opts = opts_for(ChainId::Testnet(RunArgs { block_height: 1 }));
    assert!(!opts.notifications_enabled());
    opts.telegram_token = Some("token".to_string());
    assert!(!opts.notifications_enabled());
    opts.chat_id.push("42".to_string());
    assert!(opts.notifications_enabled());
    opts.telegram_token = None;
    assert!(!opts.notifications_enabled());
}
