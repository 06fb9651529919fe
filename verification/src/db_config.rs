use vstd::prelude::*;

verus! {

/// The database path used when none was configured.
pub const DEFAULT_DB_PATH: &'static str = "nexus.db";

/// The database path setting: unset until initialized.
#[derive(Debug, Clone)]
pub struct DbConfig {
    path: Option<String>,
}

impl DbConfig {
    /// The configured path, if any.
    pub closed spec fn path(&self) -> Option<Seq<char>> {
        match self.path {
            Some(p) => Some(p@),
            None => None,
        }
    }

    /// A setting with no path configured yet.
    pub fn new() -> (c: Self)
        ensures
            c.path().is_none(),
    {
        DbConfig { path: None }
    }
}

/// The path that `get_db_path` reports for a setting.
pub open spec fn effective_path(c: &DbConfig) -> Seq<char> {
    match c.path() {
        Some(p) => p,
        None => DEFAULT_DB_PATH@,
    }
}

/// Initialize the database path; a path that is already set stays.
pub fn init_db_path(config: &mut DbConfig, path: String)
    ensures
        old(config).path().is_none() ==> final(config).path() == Some(path@),
        old(config).path().is_some() ==> final(config).path() == old(config).path(),
{
    if config.path.is_none() {
        config.path = Some(path);
    }
}

/// Get the current database path (the default one when none is set).
pub fn get_db_path(config: &DbConfig) -> (p: String)
    ensures
        p@ == effective_path(config),
{
    match &config.path {
        Some(p) => String::from_str(p.as_str()),
        None => String::from_str(DEFAULT_DB_PATH),
    }
}

/// Update the database path at runtime.
pub fn set_db_path(config: &mut DbConfig, path: String)
    ensures
        final(config).path() == Some(path@),
{
    config.path = Some(path);
}

/// After `set_db_path(p)`, `get_db_path` reports `p`; `init_db_path` then changes
/// nothing; a setting never initialized reports the default path.
pub proof fn lemma_path_settings(before: DbConfig, after_set: DbConfig, after_init: DbConfig, p: Seq<char>, q: Seq<char>)
    requires
        after_set.path() == Some(p),
        after_init.path() == (if after_set.path().is_none() { Some(q) } else { after_set.path() }),
    ensures
        effective_path(&after_set) == p,
        effective_path(&after_init) == p,
        before.path().is_none() ==> effective_path(&before) == DEFAULT_DB_PATH@,
{
}

} // verus!
