use vstd::prelude::*;

use crate::error::StdError;

verus! {

/// The canonical (normalized, fixed-width) binary form of an account
/// address. The module never stores or compares display strings: the host
/// normalizes every address to this form before it reaches the logic here,
/// so textually distinct spellings of one account compare equal.
pub struct CanonicalAddr {
    pub bytes: Vec<u8>,
}

impl View for CanonicalAddr {
    type V = Seq<u8>;

    open spec fn view(&self) -> Seq<u8> {
        self.bytes@
    }
}

impl CanonicalAddr {
    /// Byte-for-byte equality of two canonical addresses; this is the whole
    /// authorization test of the module.
    pub fn addr_eq(&self, other: &CanonicalAddr) -> (r: bool)
        ensures
            r == (self@ == other@),
    {
        if self.bytes.len() != other.bytes.len() {
            assert(self@.len() != other@.len());
            return false;
        }
        let mut i: usize = 0;
        while i < self.bytes.len()
            invariant
                i <= self.bytes.len(),
                self.bytes.len() == other.bytes.len(),
                forall|j: int| 0 <= j < i ==> self@[j] == other@[j],
            decreases self.bytes.len() - i,
        {
            if self.bytes[i] != other.bytes[i] {
                return false;
            }
            i += 1;
        }
        assert(self@ =~= other@);
        true
    }

    /// A fresh copy of the same address.
    pub fn duplicate(&self) -> (r: CanonicalAddr)
        ensures
            r@ == self@,
    {
        let mut out: Vec<u8> = Vec::new();
        let mut i: usize = 0;
        while i < self.bytes.len()
            invariant
                i <= self.bytes.len(),
                out@ == self@.subrange(0, i as int),
            decreases self.bytes.len() - i,
        {
            out.push(self.bytes[i]);
            i += 1;
        }
        assert(out@ =~= self@);
        CanonicalAddr { bytes: out }
    }
}

/// The single persistent record of the module: the owner's canonical
/// address. It is written once at initialization and never mutated after.
pub struct Config {
    pub owner: CanonicalAddr,
}

impl View for Config {
    type V = Seq<u8>;

    open spec fn view(&self) -> Seq<u8> {
        self.owner@
    }
}

/// The module's slice of the host's key/value store: one record under a
/// fixed key, absent until initialization. The host persists it
/// transactionally between invocations; within one invocation this is the
/// whole visible state.
pub struct ConfigStorage {
    pub config: Option<Config>,
}

impl View for ConfigStorage {
    type V = Option<Seq<u8>>;

    open spec fn view(&self) -> Option<Seq<u8>> {
        match self.config {
            Some(c) => Some(c@),
            None => None,
        }
    }
}

impl ConfigStorage {
    /// Storage as it stands before initialization: no config record.
    pub fn new() -> (r: ConfigStorage)
        ensures
            r@ is None,
    {
        ConfigStorage { config: None }
    }
}

/// What `read_config` returns for a given storage state: the stored config
/// if one exists, and a `NotFound` error before initialization.
pub open spec fn read_config_post(stored: Option<Seq<u8>>, r: Result<Config, StdError>) -> bool {
    match stored {
        Some(owner) => r matches Ok(c) && c@ == owner,
        None => r matches Err(StdError::NotFound { kind }) && kind@ == "Config"@,
    }
}

/// Writes the config record, replacing any previous one.
pub fn store_config(storage: &mut ConfigStorage, config: Config)
    ensures
        final(storage)@ == Some(config@),
{
    storage.config = Some(config);
}

/// Loads the config record; fails with `NotFound` if the module was never
/// initialized.
pub fn read_config(storage: &ConfigStorage) -> (r: Result<Config, StdError>)
    ensures
        read_config_post(storage@, r),
{
    match &storage.config {
        Some(c) => Ok(Config { owner: c.owner.duplicate() }),
        None => Err(StdError::NotFound { kind: "Config".to_owned() }),
    }
}

/// Loading before initialization fails, and loading after a write returns
/// exactly what was written: the store keeps this ordering and nothing else.
pub proof fn lemma_load_ordering(
    empty: ConfigStorage,
    written: ConfigStorage,
    owner: Seq<u8>,
    r_before: Result<Config, StdError>,
    r_after: Result<Config, StdError>,
)
    requires
        empty@ is None,
        written@ == Some(owner),
        read_config_post(empty@, r_before),
        read_config_post(written@, r_after),
    ensures
        r_before is Err,
        r_after matches Ok(c) && c@ == owner,
{
}

} // verus!
