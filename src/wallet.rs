//! The wallet commands and the key-source options they take.
use vstd::prelude::*;

verus! {

/// Where a signing key comes from: a raw key, an interactive prompt, a
/// derivation from a seed phrase, or an encrypted keystore file.
#[derive(Clone, Debug, Default)]
pub struct Wallet {
    pub interactive: bool,
    pub private_key: Option<String>,
    pub mnemonic_path: Option<String>,
    pub mnemonic_index: u32,
    pub keystore_path: Option<String>,
    pub keystore_password: Option<String>,
}

/// The wallet commands: create a keypair, search for a vanity address,
/// show a key's address, sign a message, verify a signature.
#[derive(Clone, Debug)]
pub enum WalletSubcommands {
    New { path: Option<String>, password: bool, unsafe_password: Option<String> },
    Vanity { starts_with: Option<String>, ends_with: Option<String>, nonce: Option<u64> },
    Address { wallet: Wallet },
    Sign { message: String, wallet: Wallet },
    Verify { message: String, signature: String, address: String },
}

} // verus!
