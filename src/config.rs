use vstd::prelude::*;

verus! {

/// How log events are written: one JSON object per line, or plain text lines.
#[derive(Clone, Copy, Debug, PartialEq, Eq, Structural)]
pub enum LogFormat {
    Json,
    Line,
}

/// Why a configuration step was refused.
#[derive(Clone, Copy, Debug, PartialEq, Eq, Structural)]
pub enum ConfigError {
    /// The component name had been set already.
    AlreadySet,
}

/// The name under which this process reports its spans: set once at start
/// and read-only from then on.
pub struct ComponentName {
    name: Option<String>,
}

impl ComponentName {
    pub closed spec fn value(&self) -> Option<Seq<char>> {
        match self.name {
            Some(n) => Some(n@),
            None => None,
        }
    }

    pub fn new() -> (r: ComponentName)
        ensures
            r.value().is_none(),
    {
        ComponentName { name: None }
    }

    /// Sets the name. A second call fails and keeps the first name.
    pub fn set(&mut self, name: String) -> (r: Result<(), ConfigError>)
        ensures
            old(self).value().is_none() ==> r is Ok && final(self).value() == Some(name@),
            old(self).value().is_some() ==> r == Err::<(), ConfigError>(ConfigError::AlreadySet)
                && final(self).value() == old(self).value(),
    {
        if self.name.is_some() {
            Err(ConfigError::AlreadySet)
        } else {
            self.name = Some(name);
            Ok(())
        }
    }

    /// The name, once set.
    pub fn get(&self) -> (r: Option<String>)
        ensures
            r.is_some() == self.value().is_some(),
            r.is_some() ==> self.value() == Some(r.unwrap()@),
    {
        match &self.name {
            Some(n) => Some(n.clone()),
            None => None,
        }
    }
}

} // verus!
