use vstd::prelude::*;

verus! {

/// Arguments a network selection carries: the block height to start
/// watching from.
#[derive(Clone, Copy, Debug, PartialEq, Eq, Structural)]
pub struct RunArgs {
    pub block_height: u64,
}

/// The network the pipeline watches, each selection carrying its required
/// starting height.
#[derive(Clone, Copy, Debug, PartialEq, Eq, Structural)]
pub enum ChainId {
    Mainnet(RunArgs),
    Testnet(RunArgs),
    Localnet(RunArgs),
}

/// The label of a network selection, as it appears in messages.
pub open spec fn chain_label(c: ChainId) -> Seq<char> {
    match c {
        ChainId::Mainnet(_) => "mainnet"@,
        ChainId::Testnet(_) => "testnet"@,
        ChainId::Localnet(_) => "localnet"@,
    }
}

/// The starting height a network selection carries.
pub open spec fn spec_start_height(c: ChainId) -> u64 {
    match c {
        ChainId::Mainnet(args) => args.block_height,
        ChainId::Testnet(args) => args.block_height,
        ChainId::Localnet(args) => args.block_height,
    }
}

/// Startup configuration, immutable after construction. Notifications are
/// enabled only when both a token and at least one recipient are present;
/// anything else silently disables them and is not an error.
#[derive(Debug)]
pub struct Opts {
    pub http_port: u16,
    pub telegram_token: Option<String>,
    pub chat_id: Vec<String>,
    pub stats_interval_sec: u64,
    pub chain_id: ChainId,
}

impl Opts {
    pub fn chain_id(&self) -> (r: &str)
        ensures
            r@ == chain_label(self.chain_id),
    {
        match self.chain_id {
            ChainId::Mainnet(_) => "mainnet",
            ChainId::Testnet(_) => "testnet",
            ChainId::Localnet(_) => "localnet",
        }
    }

    pub fn start_block_height(&self) -> (r: u64)
        ensures
            r == spec_start_height(self.chain_id),
    {
        match self.chain_id {
            ChainId::Mainnet(args) => args.block_height,
            ChainId::Testnet(args) => args.block_height,
            ChainId::Localnet(args) => args.block_height,
        }
    }

    pub open spec fn spec_notifications_enabled(self) -> bool {
        self.telegram_token is Some && self.chat_id@.len() > 0
    }

    /// Whether outbound notifications are configured: a token and at least
    /// one recipient. A token without recipients, or recipients without a
    /// token, disables notifications without error.
    pub fn notifications_enabled(&self) -> (r: bool)
        ensures
            r == self.spec_notifications_enabled(),
    {
        self.telegram_token.is_some() && self.chat_id.len() > 0
    }
}

} // verus!
