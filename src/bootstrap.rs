//! The configuration of a process's allocator: which arena it attaches to when
//! it is first used.
use vstd::prelude::*;

verus! {

/// What a process does when its allocator is first used.
#[derive(Debug)]
pub enum ArenaChoice {
    /// Attach to the existing arena of this name.
    Open(String),
    /// Create a fresh arena.
    Create,
}

/// The arena name recorded before first use, and whether first use happened.
pub struct ArenaConfig {
    name: Option<String>,
    started: bool,
}

impl ArenaConfig {
    /// The recorded name.
    pub closed spec fn name_spec(&self) -> Option<Seq<char>> {
        match self.name {
            Some(n) => Some(n@),
            None => None,
        }
    }

    /// Whether the allocator has been constructed.
    pub closed spec fn started_spec(&self) -> bool {
        self.started
    }

    /// No name recorded, not started.
    pub fn new() -> (r: ArenaConfig)
        ensures
            r.name_spec() is None,
            !r.started_spec(),
    {
        ArenaConfig { name: None, started: false }
    }

    /// Whether the allocator has been constructed.
    pub fn started(&self) -> (r: bool)
        ensures
            r == self.started_spec(),
    {
        self.started
    }

    /// First use: the arena to open if a name was recorded, else a fresh one.
    /// Later calls find the configuration started and choose the same.
    pub fn start(&mut self) -> (r: ArenaChoice)
        ensures
            final(self).started_spec(),
            final(self).name_spec() == old(self).name_spec(),
            match old(self).name_spec() {
                Some(n) => r matches ArenaChoice::Open(s) && s@ == n,
                None => r == ArenaChoice::Create,
            },
    {
        self.started = true;
        match &self.name {
            Some(n) => ArenaChoice::Open(n.clone()),
            None => ArenaChoice::Create,
        }
    }
}

/// Records the arena to open on first use. Has no effect once the allocator is
/// constructed.
pub fn bootstrap(config: &mut ArenaConfig, name: String)
    ensures
        final(config).started_spec() == old(config).started_spec(),
        old(config).started_spec() ==> final(config).name_spec() == old(config).name_spec(),
        !old(config).started_spec() ==> final(config).name_spec() == Some(name@),
{
    if !config.started {
        config.name = Some(name);
    }
}

} // verus!
