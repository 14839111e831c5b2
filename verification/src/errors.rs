//! Errors surfaced by the lifecycle operations, with their descriptive
//! messages.

use vstd::prelude::*;

verus! {

/// The lifecycle operation that failed to find its target instance.
/// Each operation surfaces its own not-found message.
#[derive(Clone, Copy, Debug, PartialEq, Eq, Structural)]
pub enum Operation {
    Delete,
    SendCommand,
    Start,
    Stop,
    ChannelUpdate,
}

/// An error produced by a lifecycle operation of the registry.
#[derive(Clone, Debug)]
pub enum InstanceError {
    /// The requested (or derived) sanitized name is already held by a live
    /// instance. Carries the conflicting name.
    NameExists(String),
    /// A freshly generated identifier collided with a registered one.
    IdentifierExists,
    /// The targeted identifier is absent from the registry.
    NotFound(Operation),
    /// The instance has no active control channel to deliver a command on.
    DeliveryFailed,
}

impl InstanceError {
    /// The descriptive message of the error.
    pub open spec fn message_spec(self) -> Seq<char> {
        match self {
            InstanceError::NameExists(name) => name@ + " already exists as an instance"@,
            InstanceError::IdentifierExists => "identifier already exists as an instance"@,
            InstanceError::NotFound(op) => match op {
                Operation::Delete => "instance not found"@,
                Operation::SendCommand => "cannot send command to instance as it does not exist"@,
                Operation::Start => "instance cannot be started as it does not exist"@,
                Operation::Stop => "instance cannot be stopped as it does not exist"@,
                Operation::ChannelUpdate => "instance not found"@,
            },
            InstanceError::DeliveryFailed => "failed to send command to instance"@,
        }
    }

    /// Renders the descriptive message of the error.
    pub fn message(&self) -> (r: String)
        ensures
            r@ == self.message_spec(),
    {
        match self {
            InstanceError::NameExists(name) => name.clone().concat(
                " already exists as an instance",
            ),
            InstanceError::IdentifierExists => ("identifier already exists as an instance").to_owned(),
            InstanceError::NotFound(op) => match op {
                Operation::Delete => ("instance not found").to_owned(),
                Operation::SendCommand => (
                    "cannot send command to instance as it does not exist"
                ).to_owned(),
                Operation::Start => ("instance cannot be started as it does not exist").to_owned(),
                Operation::Stop => ("instance cannot be stopped as it does not exist").to_owned(),
                Operation::ChannelUpdate => ("instance not found").to_owned(),
            },
            InstanceError::DeliveryFailed => ("failed to send command to instance").to_owned(),
        }
    }
}

} // verus!
