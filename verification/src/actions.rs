//! The action registry: the bidirectional mapping between a single wire byte
//! and a protocol action.
//!
//! The same byte space serves as the request action and the response code.
//! The full range 0-255 is reserved for up to 256 actions; only the five
//! below are defined today, and an undefined byte must be rejected on
//! decode rather than mapped to a default.

use vstd::prelude::*;

verus! {

/// What the client asks the server to do, or what outcome the server
/// reports. One byte on the wire.
#[derive(Copy, Clone, Debug, PartialEq, Eq, Structural)]
pub enum BussAction {
    /// Do nothing.
    Noop,
    /// Read request.
    Read,
    /// Write request.
    Write,
    /// Modify request.
    Modify,
    /// Delete request.
    Delete,
}

/// Failure to map a byte to an action.
#[derive(Copy, Clone, Debug, PartialEq, Eq, Structural)]
pub enum BussActionError {
    /// The byte is not assigned to any action; it is kept for diagnostics.
    Unhandled(u8),
}

/// The wire byte of each defined action.
pub open spec fn spec_action_byte(a: BussAction) -> u8 {
    match a {
        BussAction::Noop => 0,
        BussAction::Read => 1,
        BussAction::Write => 2,
        BussAction::Modify => 3,
        BussAction::Delete => 4,
    }
}

/// The action registered for a byte: one of the five defined actions for
/// 0-4, and an error carrying the byte itself for 5-255.
pub open spec fn spec_action_from_byte(b: u8) -> Result<BussAction, BussActionError> {
    if b == 0 {
        Ok(BussAction::Noop)
    } else if b == 1 {
        Ok(BussAction::Read)
    } else if b == 2 {
        Ok(BussAction::Write)
    } else if b == 3 {
        Ok(BussAction::Modify)
    } else if b == 4 {
        Ok(BussAction::Delete)
    } else {
        Err(BussActionError::Unhandled(b))
    }
}

impl BussAction {
    /// The byte this action is written as on the wire.
    pub fn to_byte(&self) -> (b: u8)
        ensures
            b == spec_action_byte(*self),
    {
        match *self {
            BussAction::Noop => 0,
            BussAction::Read => 1,
            BussAction::Write => 2,
            BussAction::Modify => 3,
            BussAction::Delete => 4,
        }
    }

    /// Look a byte up in the registry: the named action for the defined
    /// values 0-4, and `Unhandled` carrying the exact byte for 5-255.
    pub fn try_from_byte(value: u8) -> (r: Result<BussAction, BussActionError>)
        ensures
            r == spec_action_from_byte(value),
    {
        match value {
            0 => Ok(BussAction::Noop),
            1 => Ok(BussAction::Read),
            2 => Ok(BussAction::Write),
            3 => Ok(BussAction::Modify),
            4 => Ok(BussAction::Delete),
            _ => Err(BussActionError::Unhandled(value)),
        }
    }
}

/// Law: looking up the byte an action is written as yields that action
/// back, so the registry is bidirectional over the defined actions.
pub proof fn lemma_action_byte_round_trip(a: BussAction)
    ensures
        spec_action_from_byte(spec_action_byte(a)) == Ok::<BussAction, BussActionError>(a),
{
}

/// Law: every defined byte 0-4 maps to an action that is written back as
/// that same byte.
pub proof fn lemma_action_from_byte_round_trip(b: u8)
    requires
        b <= 4,
    ensures
        spec_action_from_byte(b) matches Ok(a) && spec_action_byte(a) == b,
{
}

} // verus!
