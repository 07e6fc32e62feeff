//! The record of a domain event as the application emits it: which command
//! caused it, who issued the command, in which environment, and when.

use vstd::prelude::*;

use crate::text::owned;
use crate::timestamp::{Timestamp, TimestampExt, offset_whole_seconds};

verus! {

/// A domain event together with the context of the command that caused it.
pub struct ApplicationEvent<T> {
    /// The identifier of the command that triggered the event, used to track it in logs.
    command_id: String,
    /// The name of the command.
    command: String,
    /// The identifier of the client that issued the command.
    authorized_party: String,
    /// The environment of the application.
    environment: String,
    /// When the application event was emitted.
    issued_at: Timestamp,
    /// The domain event.
    domain_event: T,
}

impl<T> ApplicationEvent<T> {
    pub closed spec fn command_id_text(&self) -> Seq<char> {
        self.command_id@
    }

    pub closed spec fn command_text(&self) -> Seq<char> {
        self.command@
    }

    pub closed spec fn authorized_party_text(&self) -> Seq<char> {
        self.authorized_party@
    }

    pub closed spec fn environment_text(&self) -> Seq<char> {
        self.environment@
    }

    pub closed spec fn issued_at_value(&self) -> Timestamp {
        self.issued_at
    }

    pub closed spec fn domain_event_value(&self) -> T {
        self.domain_event
    }

    /// The event `domain_event`, emitted now for the command `command` with
    /// identifier `command_id`, issued by `authorized_party` in `environment`.
    pub fn new(command_id: &str, command: String, authorized_party: &str, environment: &str, domain_event: T) -> (r: Self)
        ensures
            r.command_id_text() == command_id@,
            r.command_text() == command@,
            r.authorized_party_text() == authorized_party@,
            r.environment_text() == environment@,
            offset_whole_seconds(r.issued_at_value()) == 0,
            r.domain_event_value() == domain_event,
    {
        ApplicationEvent {
            command_id: owned(command_id),
            command,
            authorized_party: owned(authorized_party),
            environment: owned(environment),
            issued_at: Timestamp::now(),
            domain_event,
        }
    }

    /// The event with every part given, `issued_at` included.
    pub fn from_parts(
        command_id: String,
        command: String,
        authorized_party: String,
        environment: String,
        issued_at: Timestamp,
        domain_event: T,
    ) -> (r: Self)
        ensures
            r.command_id_text() == command_id@,
            r.command_text() == command@,
            r.authorized_party_text() == authorized_party@,
            r.environment_text() == environment@,
            r.issued_at_value() == issued_at,
            r.domain_event_value() == domain_event,
    {
        ApplicationEvent { command_id, command, authorized_party, environment, issued_at, domain_event }
    }

    /// The parts of the event, in the order `from_parts` takes them.
    pub fn into_parts(self) -> (r: (String, String, String, String, Timestamp, T))
        ensures
            r.0@ == self.command_id_text(),
            r.1@ == self.command_text(),
            r.2@ == self.authorized_party_text(),
            r.3@ == self.environment_text(),
            r.4 == self.issued_at_value(),
            r.5 == self.domain_event_value(),
    {
        (self.command_id, self.command, self.authorized_party, self.environment, self.issued_at, self.domain_event)
    }
}

} // verus!
