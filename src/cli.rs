//! The command line of the host tool, as plain data: what each command and
//! subcommand carries once parsed.
use vstd::prelude::*;

verus! {

#[derive(Debug, Clone, PartialEq, Eq)]
pub struct Cli {
    /// Log level: trace, debug, info, warn, error, off
    pub log_level: Option<String>,

    pub command: Commands,
}

#[derive(Debug, Clone, PartialEq, Eq)]
#[allow(inconsistent_fields)]
pub enum Commands {
    /// Interact with the bundlr network
    Bundlr {
        /// Path to the keypair file, uses Sol config or defaults to "~/.config/solana/id.json"
        keypair: Option<String>,

        /// RPC Url
        rpc_url: Option<String>,

        action: BundlrAction,
    },

    /// Manage the collection on the candy machine
    Collection {
        command: CollectionSubcommands,
    },

    /// Manage candy machine configuration
    Config {
        command: ConfigSubcommands,
    },

    /// Deploy cache items into candy machine config on-chain
    Deploy {
        /// Path to the config file, defaults to "config.json"
        config: String,

        /// Path to the keypair file, uses Sol config or defaults to "~/.config/solana/id.json"
        keypair: Option<String>,

        /// RPC Url
        rpc_url: Option<String>,

        /// Priority fee value
        priority_fee: u64,

        /// Path to the cache file, defaults to "cache.json"
        cache: String,

        /// The optional collection address where the candymachine will mint the tokens to
        collection_mint: Option<String>,
    },

    /// Manage freeze guard actions
    Freeze {
        command: FreezeCommand,
    },

    /// Manage guards on the candy machine
    Guard {
        command: GuardCommand,
    },

    /// Generate hash of cache file for hidden settings.
    Hash {
        /// Path to the config file, defaults to "config.json"
        config: String,

        /// Path to the cache file, defaults to "cache.json"
        cache: String,

        /// Compare a provided hash with a cache file to check integrity.
        compare: Option<String>,
    },

    /// Create a candy machine deployment from assets
    Launch {
        /// Path to the directory with the assets to upload
        assets_dir: String,

        /// Path to the keypair file [default: solana config or "~/.config/solana/id.json"]
        keypair: Option<String>,

        /// Path to the config file
        config: String,

        /// RPC Url
        rpc_url: Option<String>,

        /// Priority fee value
        priority_fee: u64,

        /// Path to the cache file
        cache: String,

        /// Strict mode: validate against JSON metadata standard exactly
        strict: bool,

        /// Skip collection validate prompt
        skip_collection_prompt: bool,
    },

    /// Import existing NFTs metadata links into a Sugar cache
    Import {
        /// Path to the text file containing Arweave metadata URLs.
        import: String,

        /// Path to the output cache file (e.g. ./cache.json)
        output: String,
    },

    /// Mint one NFT from candy machine
    Mint {
        /// Path to the keypair file, uses Sol config or defaults to "~/.config/solana/id.json"
        keypair: Option<String>,

        /// RPC Url
        rpc_url: Option<String>,

        /// Path to the cache file, defaults to "cache.json"
        cache: String,

        /// Priority fee value
        priority_fee: u64,

        /// Amount of NFTs to be minted in bulk
        number: Option<u64>,

        /// Public key of the receiver of the minted NFT, defaults to keypair
        receiver: Option<String>,

        /// Address of candy machine to mint from.
        candy_machine: Option<String>,
    },
    /// Airdrop NFTs from candy machine
    Airdrop {
        /// Path to the keypair file, uses Sol config or defaults to "~/.config/solana/id.json"
        keypair: Option<String>,

        /// RPC Url
        rpc_url: Option<String>,

        /// Path to the cache file, defaults to "cache.json"
        cache: String,

        /// Priority fee value
        priority_fee: u64,

        /// Address of candy machine to mint from.
        candy_machine: Option<String>,

        /// List of airdrop targets.
        airdrop_list: String,
    },

    /// Reveal the NFTs from a hidden settings candy machine
    Reveal {
        /// Path to the keypair file, uses Sol config or defaults to "~/.config/solana/id.json"
        keypair: Option<String>,

        /// RPC Url
        rpc_url: Option<String>,

        /// Path to the cache file, defaults to "cache.json"
        cache: String,

        /// Path to the config file
        config: String,

        /// RPC timeout to retrieve the mint list (in seconds).
        timeout: Option<u64>,

        /// Address to transfer the update authority to
        new_update_authority: Option<String>,
    },

    /// Show the on-chain config of an existing candy machine
    Show {
        /// Path to the keypair file, uses Sol config or defaults to "~/.config/solana/id.json"
        keypair: Option<String>,

        /// RPC Url
        rpc_url: Option<String>,

        /// Path to the cache file, defaults to "cache.json"
        cache: String,

        /// Address of candy machine
        candy_machine: Option<String>,

        /// Display a list of unminted indices
        unminted: bool,
    },

    /// Sign one or all NFTs from candy machine
    Sign {
        /// Path to the keypair file, uses Sol config or defaults to "~/.config/solana/id.json"
        keypair: Option<String>,

        /// RPC Url
        rpc_url: Option<String>,

        /// Path to the cache file, defaults to "cache.json"
        cache: String,

        /// Mint id for single NFT to be signed
        mint: Option<String>,

        /// Candy machine id.
        candy_machine_id: Option<String>,
    },

    /// Upload assets to storage and creates the cache config
    Upload {
        /// Path to the directory with the assets to upload
        assets_dir: String,

        /// Path to the config file
        config: String,

        /// Path to the keypair file [default: solana config or "~/.config/solana/id.json"]
        keypair: Option<String>,

        /// Priority fee value
        priority_fee: u64,

        /// RPC Url
        rpc_url: Option<String>,

        /// Path to the cache file
        cache: String,
    },

    /// Interact with ArDrive storage service
    Ardrive {
        command: ArdriveCommand,
    },

    /// Validate JSON metadata files
    Validate {
        /// Assets directory to upload, defaults to "assets"
        assets_dir: String,

        /// Strict mode: validate against JSON metadata standard exactly
        strict: bool,

        /// Skip collection prompt
        skip_collection_prompt: bool,
    },

    /// Verify uploaded data
    Verify {
        /// Path to the keypair file, uses Sol config or defaults to "~/.config/solana/id.json"
        keypair: Option<String>,

        /// RPC Url
        rpc_url: Option<String>,

        /// Path to the cache file, defaults to "cache.json"
        cache: String,
    },

    /// Withdraw funds a from candy machine account closing it
    Withdraw {
        /// Address of candy machine to withdraw funds from.
        candy_machine: Option<String>,

        /// Path to the keypair file, uses Sol config or defaults to "~/.config/solana/id.json"
        keypair: Option<String>,

        /// RPC Url
        rpc_url: Option<String>,

        /// Priority fee value
        priority_fee: u64,

        /// List available candy machines, no withdraw performed
        list: bool,

        /// Address of authority to find candy machines for.
        /// If authority != keypair.pubkey then force --list.
        /// Defaults to keypair.pubkey.
        authority: Option<String>,
    },
}

#[derive(Debug, Clone, PartialEq, Eq)]
pub enum BundlrAction {
    /// Retrieve the balance on bundlr
    Balance,
    /// Withdraw funds from bundlr
    Withdraw,
}

#[derive(Debug, Clone, PartialEq, Eq)]
#[allow(inconsistent_fields)]
pub enum ArdriveCommand {
    /// Upload a file to ArDrive
    Upload {
        /// Path to the file to upload
        file: String,

        /// Optional bucket name
        bucket: Option<String>,
    },

    /// List contents of a bucket
    List {
        /// Optional bucket name
        bucket: Option<String>,
    },

    /// Show info about an item
    Info {
        /// Item id
        id: String,
    },

    /// Delete an item
    Delete {
        /// Item id
        id: String,
    },
    /// Export (set) an ArDrive wallet file for CLI usage
    SetWallet {
        /// Path to the ardrive wallet JSON file
        wallet: String,
    },
    /// List contents of a specific ArDrive drive
    ListDrives {
        /// Optional path to the ardrive wallet JSON file (overrides stored wallet)
        wallet: Option<String>,

        /// ID of the drive to list (required)
        drive_id: String,
    },
    /// List files in a specific ArDrive drive
    ListDriveFiles {
        /// Optional path to the ardrive wallet JSON file (overrides stored wallet)
        wallet: Option<String>,

        /// ID of the drive to list (required)
        drive_id: String,

        /// Optional JSON output file path to save the file list
        output: Option<String>,

        /// Optional file extension filter (e.g. json)
        filter: Option<String>,
    },
    /// List all drives (detailed) accessible by the wallet
    ListAllDrives {
        /// Optional path to the ardrive wallet JSON file (overrides stored wallet)
        wallet: Option<String>,

        /// Optional JSON output file path to save the drive list
        output: Option<String>,
    },
}

#[derive(Debug, Clone, PartialEq, Eq)]
#[allow(inconsistent_fields)]
pub enum ConfigSubcommands {
    /// Interactive process to create a config file
    Create {
        /// Path to the config file
        config: Option<String>,

        /// RPC Url
        rpc_url: Option<String>,

        /// Path to the keypair file [default: solana config or "~/.config/solana/id.json"]
        keypair: Option<String>,

        /// Path to the directory with the assets
        assets_dir: String,
    },
    /// Update the candy machine config on-chain
    Update {
        /// Path to the config file, defaults to "config.json"
        config: String,

        /// Path to the keypair file, uses Sol config or defaults to "~/.config/solana/id.json"
        keypair: Option<String>,

        /// RPC Url
        rpc_url: Option<String>,

        /// Priority fee value
        priority_fee: u64,

        /// Path to the cache file, defaults to "cache.json"
        cache: String,

        /// Pubkey for the new authority
        new_authority: Option<String>,

        /// Address of candy machine to update.
        candy_machine: Option<String>,
    },
    /// Set specific candy machine config values
    SetValues {
        /// Path to the keypair file, uses Sol config or defaults to "~/.config/solana/id.json"
        keypair: Option<String>,

        /// RPC Url
        rpc_url: Option<String>,

        /// Path to the cache file, defaults to "cache.json"
        cache: String,

        /// Priority fee value
        priority_fee: u64,

        /// Token Standard to set.
        token_standard: Option<String>,

        /// Address of candy machine to update.
        candy_machine: Option<String>,

        /// Address of the rule set to use.
        rule_set: Option<String>,
    },
}

#[derive(Debug, Clone, PartialEq, Eq)]
pub enum CollectionSubcommands {
    /// Set the collection mint on the candy machine
    SetMint {
        /// Path to the keypair file, uses Sol config or defaults to "~/.config/solana/id.json"
        keypair: Option<String>,

        /// RPC Url
        rpc_url: Option<String>,

        /// Path to the cache file, defaults to "cache.json"
        cache: String,

        /// Priority fee value
        priority_fee: u64,

        /// Path to the config file
        config: String,

        /// Address of candy machine to update.
        candy_machine: Option<String>,

        /// Address of collection mint to set the candy machine to.
        collection_mint: String,
    },
}

#[derive(Debug, Clone, PartialEq, Eq)]
pub enum GuardCommand {
    /// Add a candy guard on a candy machine
    Add {
        /// Path to the keypair file, uses Sol config or defaults to "~/.config/solana/id.json"
        keypair: Option<String>,

        /// RPC Url
        rpc_url: Option<String>,

        /// Path to the cache file, defaults to "cache.json"
        cache: String,

        /// Path to the config file
        config: String,

        /// Priority fee value
        priority_fee: u64,

        /// Address of the candy machine.
        candy_machine: Option<String>,

        /// Address of the candy guard.
        candy_guard: Option<String>,
    },
    /// Remove a candy guard from a candy machine
    Remove {
        /// Path to the keypair file, uses Sol config or defaults to "~/.config/solana/id.json"
        keypair: Option<String>,

        /// RPC Url
        rpc_url: Option<String>,

        /// Path to the cache file, defaults to "cache.json"
        cache: String,

        /// Priority fee value
        priority_fee: u64,

        /// Address of the candy machine.
        candy_machine: Option<String>,

        /// Address of the candy guard.
        candy_guard: Option<String>,
    },
    /// Show the on-chain config of an existing candy guard
    Show {
        /// Path to the keypair file, uses Sol config or defaults to "~/.config/solana/id.json"
        keypair: Option<String>,

        /// RPC Url
        rpc_url: Option<String>,

        /// Path to the cache file, defaults to "cache.json"
        cache: String,

        /// Address of the candy guard.
        candy_guard: Option<String>,
    },
    /// Update the configuration of a candy guard
    Update {
        /// Path to the keypair file, uses Sol config or defaults to "~/.config/solana/id.json"
        keypair: Option<String>,

        /// RPC Url
        rpc_url: Option<String>,

        /// Path to the cache file, defaults to "cache.json"
        cache: String,

        /// Priority fee value
        priority_fee: u64,

        /// Path to the config file
        config: String,

        /// Address of the candy guard.
        candy_guard: Option<String>,
    },
    /// Withdraw funds from a candy guard account closing it
    Withdraw {
        /// Path to the keypair file, uses Sol config or defaults to "~/.config/solana/id.json"
        keypair: Option<String>,

        /// RPC Url
        rpc_url: Option<String>,

        /// Priority fee value
        priority_fee: u64,

        /// Path to the cache file, defaults to "cache.json"
        cache: String,

        /// Address of the candy guard.
        candy_guard: Option<String>,
    },
}

#[derive(Debug, Clone, PartialEq, Eq)]
pub enum FreezeCommand {
    /// Initialize the freeze escrow account.
    Initialize {
        /// Path to the keypair file, uses Sol config or defaults to "~/.config/solana/id.json"
        keypair: Option<String>,

        /// RPC Url
        rpc_url: Option<String>,

        /// Path to the cache file, defaults to "cache.json"
        cache: String,

        /// Path to the config file
        config: String,

        /// Address of candy guard to update [defaults to cache value].
        candy_guard: Option<String>,

        /// Address of candy machine to update [defaults to cache value].
        candy_machine: Option<String>,

        /// Priority fee value
        priority_fee: u64,

        /// Candy guard group label.
        label: Option<String>,

        /// Freeze period in seconds (maximum 30 days).
        period: u64,
    },
    /// Thaw a NFT or all NFTs in a candy guard.
    Thaw {
        /// Path to the keypair file, uses Sol config or defaults to "~/.config/solana/id.json"
        keypair: Option<String>,

        /// RPC Url
        rpc_url: Option<String>,

        /// Path to the cache file, defaults to "cache.json"
        cache: String,

        /// Path to the config file
        config: String,

        /// Unthaw all NFTs in the candy machine.
        all: bool,

        /// Address of the NFT to thaw.
        nft_mint: Option<String>,

        /// Address of candy guard to update [defaults to cache value].
        candy_guard: Option<String>,

        /// Priority fee value
        priority_fee: u64,

        /// Address of candy machine to update [defaults to cache value].
        candy_machine: Option<String>,

        /// Address of the destination account on the freeze guard.
        destination: Option<String>,

        /// Candy guard group label.
        label: Option<String>,

        /// Indicates to create/use a cache file for mint list.
        use_cache: bool,

        /// RPC timeout to retrieve the mint list (in seconds).
        timeout: Option<u64>,

        /// Indicates whether this is a freeze token payment guard or not.
        token: bool,
    },
    /// Unlock treasury funds after freeze is turned off or expires.
    UnlockFunds {
        /// Path to the keypair file, uses Sol config or defaults to "~/.config/solana/id.json"
        keypair: Option<String>,

        /// RPC Url
        rpc_url: Option<String>,

        /// Path to the cache file, defaults to "cache.json"
        cache: String,

        /// Path to the config file
        config: String,

        /// Priority fee value
        priority_fee: u64,

        /// Address of candy guard to update [defaults to cache value].
        candy_guard: Option<String>,

        /// Address of candy machine to update [defaults to cache value].
        candy_machine: Option<String>,

        /// Address of the destination (treasury) account.
        destination: Option<String>,

        /// Candy guard group label.
        label: Option<String>,

        /// Indicates whether this is a freeze token payment guard or not.
        token: bool,
    },
}

/// Arguments for importing existing NFTs metadata links into a Sugar cache.
#[derive(Debug, Clone, PartialEq, Eq)]
pub struct ImportNFTsArgs {
    /// Path to the text file containing Arweave metadata URLs.
    pub import: String,

    /// Path to the output cache file (e.g. ./cache.json)
    pub output: String,
}

} // verus!
