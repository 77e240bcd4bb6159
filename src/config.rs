//! Where the store lives: a path that the host may override once or more.
use vstd::prelude::*;

use crate::store::{StoreError, TextField};
use crate::text::{arg_text, text_arg};

verus! {

/// The path used while no other has been set.
pub open spec fn default_path() -> Seq<char> {
    seq!['d', 'a', 't', 'a', '.', 'j', 's', 'o', 'n']
}

/// The store's location: `None` until a path is set.
pub struct StoreConfig {
    pub path: Option<String>,
}

impl StoreConfig {
    /// A configuration that uses the default path.
    pub fn new() -> (r: StoreConfig)
        ensures
            r.path is None,
    {
        StoreConfig { path: None }
    }

    /// The path that loads and saves use.
    pub fn data_path(&self) -> (r: String)
        ensures
            r@ == match self.path {
                Some(p) => p@,
                None => default_path(),
            },
    {
        match &self.path {
            Some(p) => p.clone(),
            None => {
                proof {
                    reveal_strlit("data.json");
                }
                let d = "data.json".to_owned();
                assert(d@ =~= default_path());
                d
            },
        }
    }

    /// Replaces the path, given as raw bytes (`None` for a missing one). A
    /// missing or malformed path is refused and the old path kept.
    pub fn set_data_path(&mut self, path: Option<&[u8]>) -> (r: Result<(), StoreError>)
        ensures
            match arg_text(path) {
                Some(t) => r is Ok && final(self).path is Some && final(self).path->0@ == t,
                None => r == Err::<(), StoreError>(StoreError::InvalidText(TextField::Path))
                    && *final(self) == *old(self),
            },
    {
        let p = text_arg(path, TextField::Path)?;
        self.path = Some(p);
        Ok(())
    }
}

} // verus!
