//! The relay's configuration.
//!
//! A value comes from the command line where it is given there, else from
//! the configuration file, else from the defaults below. The secret that
//! tokens are made with has a default in a build for development only: in a
//! build for production it must be given.

use vstd::prelude::*;
use vstd::string::*;

verus! {

/// The directory under the home directory in which the relay keeps its
/// files.
pub const FOLDER_DIR: &'static str = ".relay";

pub const DEFAULT_BIND: &'static str = "127.0.0.1:8080";

pub const DEFAULT_RPC_ADDR: &'static str = "http://127.0.0.1:18443";

pub const DEFAULT_RPC_USER: &'static str = "user";

pub const DEFAULT_RPC_PASSWORD: &'static str = "password";

pub const DEFAULT_NETWORK: &'static str = "regtest";

/// Milliseconds between two pings on a websocket.
pub const DEFAULT_PING_INTERVAL: u64 = 10_000;

/// The largest message taken, in bytes: 20 MiB.
pub const DEFAULT_MESSAGE_LIMIT: u64 = 20_971_520;

/// The largest profile taken, in bytes: 512 KiB.
pub const DEFAULT_PROFILE_LIMIT: u64 = 524_288;

/// The largest payment taken, in bytes: 3 KiB.
pub const DEFAULT_PAYMENT_LIMIT: u64 = 3_072;

/// Milliseconds for which an invoice can be paid: one minute.
pub const DEFAULT_PAYMENT_TIMEOUT: u64 = 60_000;

pub const DEFAULT_TRUNCATION_LENGTH: u64 = 500;

/// The price of a token, in satoshis.
pub const DEFAULT_TOKEN_FEE: u64 = 100_000;

pub const DEFAULT_MEMO: &'static str = "Thanks for your custom!";

/// The token secret of a build for development. A build for production has
/// none: there the secret must be given.
pub const DEBUG_HMAC_SECRET: &'static str = "1234";

/// Where the node is reached and how the relay logs in.
#[derive(Debug)]
pub struct BitcoinRpc {
    pub address: String,
    pub username: String,
    pub password: String,
}

/// The largest bodies taken, in bytes.
#[derive(Debug)]
pub struct Limits {
    pub message_size: u64,
    pub profile_size: u64,
    pub payment_size: u64,
}

/// How tokens are sold.
#[derive(Debug)]
pub struct Payment {
    /// Milliseconds for which an invoice can be paid.
    pub timeout: u64,
    /// The price of a token, in satoshis.
    pub token_fee: u64,
    /// The note that an invoice carries.
    pub memo: String,
    /// The secret that tokens are made with.
    pub hmac_secret: String,
}

#[derive(Debug)]
pub struct Websocket {
    pub ping_interval: u64,
    pub truncation_length: u64,
}

/// The chain that the relay serves.
#[derive(Debug, Clone, Copy, PartialEq, Eq, Structural)]
pub enum Network {
    Mainnet,
    Testnet,
    Regtest,
}

#[derive(Debug)]
pub struct Settings {
    /// The socket address on which the relay listens.
    pub bind: String,
    pub db_path: String,
    pub network: Network,
    pub bitcoin_rpc: BitcoinRpc,
    pub limits: Limits,
    pub payments: Payment,
    pub websocket: Websocket,
}

/// What the configuration file gives; each value may be missing.
#[derive(Debug)]
pub struct FileSettings {
    pub bind: Option<String>,
    pub db_path: Option<String>,
    pub network: Option<String>,
    pub rpc_address: Option<String>,
    pub rpc_username: Option<String>,
    pub rpc_password: Option<String>,
    pub message_size: Option<u64>,
    pub profile_size: Option<u64>,
    pub payment_size: Option<u64>,
    pub timeout: Option<u64>,
    pub token_fee: Option<u64>,
    pub memo: Option<String>,
    pub hmac_secret: Option<String>,
    pub ping_interval: Option<u64>,
    pub truncation_length: Option<u64>,
}

/// What the command line gives; each value may be missing.
#[derive(Debug)]
pub struct CommandLine {
    pub bind: Option<String>,
    pub network: Option<String>,
    pub db_path: Option<String>,
    pub rpc_addr: Option<String>,
    pub rpc_username: Option<String>,
    pub rpc_password: Option<String>,
    pub hmac_secret: Option<String>,
}

/// Why no configuration could be made.
#[derive(Debug)]
pub enum ConfigError {
    /// There is no home directory.
    NoHomeDirectory,
    /// Neither the command line nor the file gives the secret, and the
    /// build is not one for development.
    MissingSecret,
    /// The network is none of `mainnet`, `testnet` and `regtest`; holds the
    /// name that was given.
    UnknownNetwork(String),
}

/// The text of an optional string.
pub open spec fn text_of(value: Option<String>) -> Option<Seq<char>> {
    match value {
        Some(text) => Some(text@),
        None => None,
    }
}

/// The first of the three that is there: the command line's value, else the
/// file's, else the default.
pub open spec fn layered<T>(command_line: Option<T>, file: Option<T>, default: T) -> T {
    match command_line {
        Some(value) => value,
        None => match file {
            Some(value) => value,
            None => default,
        },
    }
}

/// The first of the two that is there, for a value that has no default.
pub open spec fn given<T>(command_line: Option<T>, file: Option<T>) -> Option<T> {
    match command_line {
        Some(value) => Some(value),
        None => file,
    }
}

/// The token secret: the one that is given, else the default of a build
/// for development, else none.
pub open spec fn secret_of(
    command_line: Option<Seq<char>>,
    file: Option<Seq<char>>,
    debug_build: bool,
) -> Option<Seq<char>> {
    match given(command_line, file) {
        Some(secret) => Some(secret),
        None => if debug_build {
            Some(DEBUG_HMAC_SECRET@)
        } else {
            None
        },
    }
}

/// The network of the given name.
pub open spec fn network_named(name: Seq<char>) -> Option<Network> {
    if name == "mainnet"@ {
        Some(Network::Mainnet)
    } else if name == "testnet"@ {
        Some(Network::Testnet)
    } else if name == "regtest"@ {
        Some(Network::Regtest)
    } else {
        None
    }
}

/// The path of `name` in the relay's directory under `home_dir`.
pub open spec fn path_in_folder(home_dir: Seq<char>, name: Seq<char>) -> Seq<char> {
    home_dir + "/"@ + FOLDER_DIR@ + "/"@ + name
}

fn pick_string(command_line: Option<String>, file: Option<String>, default: String) -> (value:
    String)
    ensures
        value@ == layered(text_of(command_line), text_of(file), default@),
{
    match command_line {
        Some(value) => value,
        None => match file {
            Some(value) => value,
            None => default,
        },
    }
}

fn pick_number(file: Option<u64>, default: u64) -> (value: u64)
    ensures
        value == layered(None, file, default),
{
    match file {
        Some(value) => value,
        None => default,
    }
}

impl Network {
    /// The network of the given name, if it is the name of one.
    pub fn from_name(name: &String) -> (r: Option<Network>)
        ensures
            r == network_named(name@),
    {
        if *name == String::from_str("mainnet") {
            Some(Network::Mainnet)
        } else if *name == String::from_str("testnet") {
            Some(Network::Testnet)
        } else if *name == String::from_str("regtest") {
            Some(Network::Regtest)
        } else {
            None
        }
    }
}

/// The path of `name` in the relay's directory under `home_dir`.
pub fn folder_path(home_dir: &str, name: &str) -> (path: String)
    ensures
        path@ == path_in_folder(home_dir@, name@),
{
    let mut path = String::from_str(home_dir);
    path.append("/");
    path.append(FOLDER_DIR);
    path.append("/");
    path.append(name);
    path
}

impl Settings {
    /// Makes the configuration from what the command line and the file
    /// give. `home_dir` is the home directory, under which the default
    /// database lies; `debug_build` says whether this is a build for
    /// development, the one kind of build in which the token secret has a
    /// default.
    ///
    /// Fails with `NoHomeDirectory` where there is no home directory, with
    /// `UnknownNetwork` where the network named is none, and with
    /// `MissingSecret` where no secret is given and the build is not one for
    /// development.
    pub fn new(
        home_dir: Option<&str>,
        file: FileSettings,
        command_line: CommandLine,
        debug_build: bool,
    ) -> (r: Result<Settings, ConfigError>)
        ensures
            home_dir is None ==> r is Err && r->Err_0 is NoHomeDirectory,
            home_dir is Some && network_named(
                layered(text_of(command_line.network), text_of(file.network), DEFAULT_NETWORK@),
            ) is None ==> r is Err && r->Err_0 is UnknownNetwork && r->Err_0->UnknownNetwork_0@
                == layered(text_of(command_line.network), text_of(file.network), DEFAULT_NETWORK@),
            home_dir is Some && network_named(
                layered(text_of(command_line.network), text_of(file.network), DEFAULT_NETWORK@),
            ) is Some && secret_of(
                text_of(command_line.hmac_secret),
                text_of(file.hmac_secret),
                debug_build,
            ) is None ==> r is Err && r->Err_0 is MissingSecret,
            home_dir is Some && network_named(
                layered(text_of(command_line.network), text_of(file.network), DEFAULT_NETWORK@),
            ) is Some && secret_of(
                text_of(command_line.hmac_secret),
                text_of(file.hmac_secret),
                debug_build,
            ) is Some ==> r is Ok,
            r matches Ok(settings) ==> {
                &&& settings.bind@ == layered(
                    text_of(command_line.bind),
                    text_of(file.bind),
                    DEFAULT_BIND@,
                )
                &&& home_dir is Some
                &&& settings.db_path@ == layered(
                    text_of(command_line.db_path),
                    text_of(file.db_path),
                    path_in_folder(home_dir->Some_0@, "db"@),
                )
                &&& Some(settings.network) == network_named(
                    layered(
                        text_of(command_line.network),
                        text_of(file.network),
                        DEFAULT_NETWORK@,
                    ),
                )
                &&& settings.bitcoin_rpc.address@ == layered(
                    text_of(command_line.rpc_addr),
                    text_of(file.rpc_address),
                    DEFAULT_RPC_ADDR@,
                )
                &&& settings.bitcoin_rpc.username@ == layered(
                    text_of(command_line.rpc_username),
                    text_of(file.rpc_username),
                    DEFAULT_RPC_USER@,
                )
                &&& settings.bitcoin_rpc.password@ == layered(
                    text_of(command_line.rpc_password),
                    text_of(file.rpc_password),
                    DEFAULT_RPC_PASSWORD@,
                )
                &&& settings.limits.message_size == layered(
                    None,
                    file.message_size,
                    DEFAULT_MESSAGE_LIMIT,
                )
                &&& settings.limits.profile_size == layered(
                    None,
                    file.profile_size,
                    DEFAULT_PROFILE_LIMIT,
                )
                &&& settings.limits.payment_size == layered(
                    None,
                    file.payment_size,
                    DEFAULT_PAYMENT_LIMIT,
                )
                &&& settings.payments.timeout == layered(
                    None,
                    file.timeout,
                    DEFAULT_PAYMENT_TIMEOUT,
                )
                &&& settings.payments.token_fee == layered(None, file.token_fee, DEFAULT_TOKEN_FEE)
                &&& settings.payments.memo@ == layered(None, text_of(file.memo), DEFAULT_MEMO@)
                &&& Some(settings.payments.hmac_secret@) == secret_of(
                    text_of(command_line.hmac_secret),
                    text_of(file.hmac_secret),
                    debug_build,
                )
                &&& settings.websocket.ping_interval == layered(
                    None,
                    file.ping_interval,
                    DEFAULT_PING_INTERVAL,
                )
                &&& settings.websocket.truncation_length == layered(
                    None,
                    file.truncation_length,
                    DEFAULT_TRUNCATION_LENGTH,
                )
            },
    {
        let home_dir = match home_dir {
            Some(home_dir) => home_dir,
            None => { return Err(ConfigError::NoHomeDirectory); },
        };
        let network_name = pick_string(
            command_line.network,
            file.network,
            String::from_str(DEFAULT_NETWORK),
        );
        let network = match Network::from_name(&network_name) {
            Some(network) => network,
            None => { return Err(ConfigError::UnknownNetwork(network_name)); },
        };
        let hmac_secret = match command_line.hmac_secret {
            Some(secret) => secret,
            None => match file.hmac_secret {
                Some(secret) => secret,
                None => {
                    if !debug_build {
                        return Err(ConfigError::MissingSecret);
                    }
                    String::from_str(DEBUG_HMAC_SECRET)
                },
            },
        };
        Ok(
            Settings {
                bind: pick_string(command_line.bind, file.bind, String::from_str(DEFAULT_BIND)),
                db_path: pick_string(
                    command_line.db_path,
                    file.db_path,
                    folder_path(home_dir, "db"),
                ),
                network,
                bitcoin_rpc: BitcoinRpc {
                    address: pick_string(
                        command_line.rpc_addr,
                        file.rpc_address,
                        String::from_str(DEFAULT_RPC_ADDR),
                    ),
                    username: pick_string(
                        command_line.rpc_username,
                        file.rpc_username,
                        String::from_str(DEFAULT_RPC_USER),
                    ),
                    password: pick_string(
                        command_line.rpc_password,
                        file.rpc_password,
                        String::from_str(DEFAULT_RPC_PASSWORD),
                    ),
                },
                limits: Limits {
                    message_size: pick_number(file.message_size, DEFAULT_MESSAGE_LIMIT),
                    profile_size: pick_number(file.profile_size, DEFAULT_PROFILE_LIMIT),
                    payment_size: pick_number(file.payment_size, DEFAULT_PAYMENT_LIMIT),
                },
                payments: Payment {
                    timeout: pick_number(file.timeout, DEFAULT_PAYMENT_TIMEOUT),
                    token_fee: pick_number(file.token_fee, DEFAULT_TOKEN_FEE),
                    memo: pick_string(None, file.memo, String::from_str(DEFAULT_MEMO)),
                    hmac_secret,
                },
                websocket: Websocket {
                    ping_interval: pick_number(file.ping_interval, DEFAULT_PING_INTERVAL),
                    truncation_length: pick_number(
                        file.truncation_length,
                        DEFAULT_TRUNCATION_LENGTH,
                    ),
                },
            },
        )
    }
}

} // verus!
