//! The gg20 TSS service a primary runs for its peers.
use vstd::prelude::*;

verus! {

/// What the service does with the mnemonic of its key store.
#[derive(Debug, PartialEq, Eq, Structural)]
pub enum MnemonicCmd {
    /// Create a new mnemonic.
    Create,
    /// Use the mnemonic already stored.
    Existing,
}

/// The gg20 service: its key store lives under `tofnd_path`.
#[derive(Debug)]
pub struct Gg20Service {
    pub tofnd_path: String,
}

impl Gg20Service {
    /// The mnemonic commands a starting service runs on its key store, in
    /// order, each with a freshly read password: create a mnemonic, then
    /// open the store with the existing one.
    pub fn startup_commands() -> (r: Vec<MnemonicCmd>)
        ensures
            r@ == seq![MnemonicCmd::Create, MnemonicCmd::Existing],
    {
        let mut v: Vec<MnemonicCmd> = Vec::new();
        v.push(MnemonicCmd::Create);
        v.push(MnemonicCmd::Existing);
        proof {
            assert(v@ =~= seq![MnemonicCmd::Create, MnemonicCmd::Existing]);
        }
        v
    }
}

} // verus!
