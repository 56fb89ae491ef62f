use vstd::prelude::*;

verus! {

/// The presentation mode of the swapchain, fixed at startup from the
/// command line.  A closed enumeration replacing the dynamic
/// string-keyed choice: unknown input is a typed configuration error.
#[derive(Clone, Copy, Debug, PartialEq, Eq, Structural)]
pub enum PresentMode {
    Immediate,
    Mailbox,
    Fifo,
    Relaxed,
}

/// A configuration error, reported before any window or device exists.
#[derive(Clone, Copy, Debug, PartialEq, Eq, Structural)]
pub enum ConfigError {
    UnknownPresentMode,
}

impl Default for PresentMode {
    /// The default presentation mode is `Fifo` (mandatory vertical sync).
    fn default() -> (r: Self)
        ensures
            r == PresentMode::Fifo,
    {
        PresentMode::Fifo
    }
}

/// Which presentation mode, if any, the given option text names.
pub open spec fn spec_parse_mode(s: Seq<char>) -> Result<PresentMode, ConfigError> {
    if s == "immediate"@ {
        Ok(PresentMode::Immediate)
    } else if s == "mailbox"@ {
        Ok(PresentMode::Mailbox)
    } else if s == "fifo"@ {
        Ok(PresentMode::Fifo)
    } else if s == "relaxed"@ {
        Ok(PresentMode::Relaxed)
    } else {
        Err(ConfigError::UnknownPresentMode)
    }
}

/// Parses the presentation-mode option: exactly the four literal
/// spellings are recognized; anything else is a configuration error.
pub fn parse_mode(s: &str) -> (r: Result<PresentMode, ConfigError>)
    ensures
        r == spec_parse_mode(s@),
{
    let owned = s.to_owned();
    if owned == "immediate".to_owned() {
        Ok(PresentMode::Immediate)
    } else if owned == "mailbox".to_owned() {
        Ok(PresentMode::Mailbox)
    } else if owned == "fifo".to_owned() {
        Ok(PresentMode::Fifo)
    } else if owned == "relaxed".to_owned() {
        Ok(PresentMode::Relaxed)
    } else {
        Err(ConfigError::UnknownPresentMode)
    }
}

} // verus!
