use vstd::prelude::*;

verus! {

// The command surface: the closed set of menu entries the program offers.
// The texts a command displays while it runs are part of the surface and
// pinned by the contracts below.

/// Commands related to wallet or account management.
#[derive(Debug)]
pub enum AccountCommand {
    Balance,
    Transfer,
    Airdrop,
    ConfirmTransaction,
    LargestAccounts,
    NonceAccount,
}

/// Commands related to staking operations.
#[derive(Debug)]
pub enum StakeCommand {
    Create,
    Delegate,
    Deactivate,
    Withdraw,
    Merge,
    Split,
    Show,
    History,
    GoBack,
}

/// Commands related to the stored configuration.
#[derive(Debug)]
pub enum ConfigCommand {
    Show,
    Generate,
    Edit,
    GoBack,
}

/// Commands that inspect the cluster itself.
#[derive(Debug)]
pub enum ClusterCommand {
    Version,
    Slot,
    GoBack,
}

/// Commands related to vote accounts.
#[derive(Debug)]
pub enum VoteCommand {
    Show,
    GoBack,
}

/// The top-level menu.
#[derive(Debug)]
pub enum Command {
    Cluster(ClusterCommand),
    Stake(StakeCommand),
    Account(AccountCommand),
    Vote(VoteCommand),
    ScillaConfig(ConfigCommand),
    Exit,
}

pub open spec fn cluster_spinner_msg_spec(c: ClusterCommand) -> Seq<char> {
    match c {
        ClusterCommand::Version => "Fetching cluster version…"@,
        ClusterCommand::Slot => "Fetching current slot…"@,
        ClusterCommand::GoBack => "Going back…"@,
    }
}

impl ClusterCommand {
    /// The text shown while the command's work is in flight.
    pub fn spinner_msg(&self) -> (r: &'static str)
        ensures
            r@ == cluster_spinner_msg_spec(*self),
    {
        match self {
            ClusterCommand::Version => "Fetching cluster version…",
            ClusterCommand::Slot => "Fetching current slot…",
            ClusterCommand::GoBack => "Going back…",
        }
    }
}

pub open spec fn vote_spinner_msg_spec(c: VoteCommand) -> Seq<char> {
    match c {
        VoteCommand::Show => "Fetching vote account details…"@,
        VoteCommand::GoBack => "Going back…"@,
    }
}

impl VoteCommand {
    /// The text shown while the command's work is in flight.
    pub fn spinner_msg(&self) -> (r: &'static str)
        ensures
            r@ == vote_spinner_msg_spec(*self),
    {
        match self {
            VoteCommand::Show => "Fetching vote account details…",
            VoteCommand::GoBack => "Going back…",
        }
    }
}

pub open spec fn account_description_spec(c: AccountCommand) -> Seq<char> {
    match c {
        AccountCommand::Balance => "Get wallet balance"@,
        AccountCommand::Transfer => "Transfer SOL to another address"@,
        AccountCommand::Airdrop => "Request SOL from faucet"@,
        AccountCommand::ConfirmTransaction => "Confirm a pending transaction"@,
        AccountCommand::LargestAccounts => "Fetch cluster’s largest accounts"@,
        AccountCommand::NonceAccount => "Inspect or manage nonce accounts"@,
    }
}

impl AccountCommand {
    /// The one-line description shown beside the menu entry.
    pub fn description(&self) -> (r: &'static str)
        ensures
            r@ == account_description_spec(*self),
    {
        match self {
            AccountCommand::Balance => "Get wallet balance",
            AccountCommand::Transfer => "Transfer SOL to another address",
            AccountCommand::Airdrop => "Request SOL from faucet",
            AccountCommand::ConfirmTransaction => "Confirm a pending transaction",
            AccountCommand::LargestAccounts => "Fetch cluster’s largest accounts",
            AccountCommand::NonceAccount => "Inspect or manage nonce accounts",
        }
    }
}

pub open spec fn stake_spinner_msg_spec(c: StakeCommand) -> Seq<char> {
    match c {
        StakeCommand::Create => "Creating new stake account…"@,
        StakeCommand::Delegate => "Delegating stake to validator…"@,
        StakeCommand::Deactivate => "Deactivating stake (cooldown starting)…"@,
        StakeCommand::Withdraw => "Withdrawing SOL from deactivated stake…"@,
        StakeCommand::Merge => "Merging stake accounts…"@,
        StakeCommand::Split => "Splitting stake into multiple accounts…"@,
        StakeCommand::Show => "Fetching stake account details…"@,
        StakeCommand::History => "Fetching stake account history…"@,
        StakeCommand::GoBack => "Going back…"@,
    }
}

impl StakeCommand {
    /// The text shown while the command's work is in flight.
    pub fn spinner_msg(&self) -> (r: &'static str)
        ensures
            r@ == stake_spinner_msg_spec(*self),
    {
        match self {
            StakeCommand::Create => "Creating new stake account…",
            StakeCommand::Delegate => "Delegating stake to validator…",
            StakeCommand::Deactivate => "Deactivating stake (cooldown starting)…",
            StakeCommand::Withdraw => "Withdrawing SOL from deactivated stake…",
            StakeCommand::Merge => "Merging stake accounts…",
            StakeCommand::Split => "Splitting stake into multiple accounts…",
            StakeCommand::Show => "Fetching stake account details…",
            StakeCommand::History => "Fetching stake account history…",
            StakeCommand::GoBack => "Going back…",
        }
    }
}

pub open spec fn config_spinner_msg_spec(c: ConfigCommand) -> Seq<char> {
    match c {
        ConfigCommand::Show => "Displaying current Scilla configuration…"@,
        ConfigCommand::Generate => "Generating new Scilla configuration…"@,
        ConfigCommand::Edit => "Editing existing Scilla configuration…"@,
        ConfigCommand::GoBack => "Going back…"@,
    }
}

impl ConfigCommand {
    /// The text shown while the command's work is in flight.
    pub fn spinner_msg(&self) -> (r: &'static str)
        ensures
            r@ == config_spinner_msg_spec(*self),
    {
        match self {
            ConfigCommand::Show => "Displaying current Scilla configuration…",
            ConfigCommand::Generate => "Generating new Scilla configuration…",
            ConfigCommand::Edit => "Editing existing Scilla configuration…",
            ConfigCommand::GoBack => "Going back…",
        }
    }
}

} // verus!
