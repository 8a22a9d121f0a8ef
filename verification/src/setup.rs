//! The protocol that installs the identity override.
//!
//! The override is installed by a fixed series of requests to the runtime.
//! Each answer decides how the series goes on: a class or a method that the
//! runtime does not have ends it, for nothing useful can follow, and the
//! identifier that the main bundle gives at the end decides the result.
//! The setup holds these decisions. The program that owns the runtime puts
//! each request to it and hands the answer back.

use vstd::prelude::*;
use crate::identity::{
    is_spoofed_identifier, spoofed_identifier, IdentityOverrideModel, IdentityOverrideState,
};

verus! {

/// What the setup asks of the runtime.
#[derive(Clone, Copy, Debug, PartialEq, Eq, Structural)]
pub enum RuntimeRequest {
    /// Look up the class named [`ROOT_CLASS`](crate::identity::ROOT_CLASS).
    LookupRootClass,
    /// Declare the class named [`OVERRIDE_CLASS`](crate::identity::OVERRIDE_CLASS)
    /// under the root class, give it one method, under
    /// [`OVERRIDE_SELECTOR`](crate::identity::OVERRIDE_SELECTOR), which takes no
    /// notice of its receiver and returns
    /// [`SPOOFED_BUNDLE_IDENTIFIER`](crate::identity::SPOOFED_BUNDLE_IDENTIFIER),
    /// and register the class.
    RegisterOverrideClass,
    /// Look up the class named [`BUNDLE_CLASS`](crate::identity::BUNDLE_CLASS).
    LookupBundleClass,
    /// Look up the instance method of the bundle class under
    /// [`IDENTITY_SELECTOR`](crate::identity::IDENTITY_SELECTOR).
    LookupIdentityMethod,
    /// Look up the override class in the runtime's class table.
    LookupOverrideClass,
    /// Look up the instance method of the override class under the override
    /// selector.
    LookupOverrideMethod,
    /// Exchange the implementations of the two methods that were looked up.
    ExchangeImplementations,
    /// Ask the main bundle for its identifier, by the identity selector.
    QueryBundleIdentifier,
}

/// What the runtime answered, as a mathematical value.
pub enum RuntimeAnswer {
    Found,
    Missing,
    Exchanged,
    Identifier(Option<Seq<char>>),
}

/// What the runtime answered.
#[derive(Debug, PartialEq, Eq)]
pub enum RuntimeReply {
    /// The class or method is there; or the class was registered.
    Found,
    /// The runtime has no such class or method; or it refused the class.
    Missing,
    /// The implementations were exchanged.
    Exchanged,
    /// The identifier that the main bundle gave, if it gave one.
    Identifier(Option<String>),
}

impl View for RuntimeReply {
    type V = RuntimeAnswer;

    open spec fn view(&self) -> RuntimeAnswer {
        match self {
            RuntimeReply::Found => RuntimeAnswer::Found,
            RuntimeReply::Missing => RuntimeAnswer::Missing,
            RuntimeReply::Exchanged => RuntimeAnswer::Exchanged,
            RuntimeReply::Identifier(Some(text)) => RuntimeAnswer::Identifier(Some(text@)),
            RuntimeReply::Identifier(None) => RuntimeAnswer::Identifier(None),
        }
    }
}

/// What the caller of the setup is to do next.
#[derive(Clone, Copy, Debug, PartialEq, Eq, Structural)]
pub enum SetupAction {
    /// Put the request to the runtime and hand the answer to the setup.
    Ask(RuntimeRequest),
    /// The setup is over. The value says whether the main bundle now gives
    /// the spoofed identifier.
    Finished(bool),
    /// The runtime lacks what the override needs. The process cannot go on.
    Abort,
}

/// Whether `answer` is an answer to `request` that lets the setup go on.
pub open spec fn answers(request: RuntimeRequest, answer: RuntimeAnswer) -> bool {
    match request {
        RuntimeRequest::ExchangeImplementations => answer is Exchanged,
        RuntimeRequest::QueryBundleIdentifier => answer is Identifier,
        _ => answer is Found,
    }
}

/// What follows `request` once the runtime has answered it.
pub open spec fn following(request: RuntimeRequest, answer: RuntimeAnswer) -> SetupAction {
    match request {
        RuntimeRequest::LookupRootClass => SetupAction::Ask(RuntimeRequest::RegisterOverrideClass),
        RuntimeRequest::RegisterOverrideClass => SetupAction::Ask(RuntimeRequest::LookupBundleClass),
        RuntimeRequest::LookupBundleClass => SetupAction::Ask(RuntimeRequest::LookupIdentityMethod),
        RuntimeRequest::LookupIdentityMethod => SetupAction::Ask(
            RuntimeRequest::LookupOverrideClass,
        ),
        RuntimeRequest::LookupOverrideClass => SetupAction::Ask(
            RuntimeRequest::LookupOverrideMethod,
        ),
        RuntimeRequest::LookupOverrideMethod => SetupAction::Ask(
            RuntimeRequest::ExchangeImplementations,
        ),
        RuntimeRequest::ExchangeImplementations => SetupAction::Ask(
            RuntimeRequest::QueryBundleIdentifier,
        ),
        RuntimeRequest::QueryBundleIdentifier => SetupAction::Finished(
            answer == RuntimeAnswer::Identifier(Some(spoofed_identifier())),
        ),
    }
}

/// What `request`, once done, has changed in the process.
pub open spec fn effect(
    request: RuntimeRequest,
    process: IdentityOverrideModel,
) -> IdentityOverrideModel {
    match request {
        RuntimeRequest::RegisterOverrideClass => process.registered(),
        RuntimeRequest::ExchangeImplementations => process.exchanged(),
        _ => process,
    }
}

/// The action with which a setup starts.
///
/// A process that has the override class already is not asked to declare it
/// again, which the runtime would refuse: the setup goes on to the exchange.
pub open spec fn first_action(process: IdentityOverrideModel) -> SetupAction {
    if process.class_registered {
        SetupAction::Ask(RuntimeRequest::LookupBundleClass)
    } else {
        SetupAction::Ask(RuntimeRequest::LookupRootClass)
    }
}

/// One step of the setup: from the action that is pending, the process and
/// the runtime's answer to the next action and the process after it.
///
/// An answer that does not let the setup go on ends it with `Abort` and
/// leaves the process as it is. A setup that is over stays as it is.
pub open spec fn step(
    pending: SetupAction,
    process: IdentityOverrideModel,
    answer: RuntimeAnswer,
) -> (SetupAction, IdentityOverrideModel) {
    match pending {
        SetupAction::Ask(request) => if answers(request, answer) {
            (following(request, answer), effect(request, process))
        } else {
            (SetupAction::Abort, process)
        },
        _ => (pending, process),
    }
}

/// A setup of the identity override, under way or over.
#[derive(Debug)]
pub struct OverrideSetup {
    pending: SetupAction,
}

impl OverrideSetup {
    /// The action that the setup waits for, or with which it ended.
    pub closed spec fn pending(&self) -> SetupAction {
        self.pending
    }

    /// The action that the setup waits for, or with which it ended.
    pub fn action(&self) -> (action: SetupAction)
        ensures
            action == self.pending(),
    {
        self.pending
    }

    /// Takes the runtime's answer to the pending request and says what to do
    /// next. Where the answer was to a registration or an exchange, `process`
    /// records it.
    pub fn advance(
        &mut self,
        process: &mut IdentityOverrideState,
        reply: &RuntimeReply,
    ) -> (action: SetupAction)
        ensures
            (action, final(process)@) == step(old(self).pending(), old(process)@, reply@),
            final(self).pending() == action,
    {
        let request = match self.pending {
            SetupAction::Ask(request) => request,
            SetupAction::Finished(outcome) => {
                return SetupAction::Finished(outcome);
            },
            SetupAction::Abort => {
                return SetupAction::Abort;
            },
        };
        let next = match request {
            RuntimeRequest::LookupRootClass => match reply {
                RuntimeReply::Found => SetupAction::Ask(RuntimeRequest::RegisterOverrideClass),
                _ => SetupAction::Abort,
            },
            RuntimeRequest::RegisterOverrideClass => match reply {
                RuntimeReply::Found => {
                    process.record_registration();
                    SetupAction::Ask(RuntimeRequest::LookupBundleClass)
                },
                _ => SetupAction::Abort,
            },
            RuntimeRequest::LookupBundleClass => match reply {
                RuntimeReply::Found => SetupAction::Ask(RuntimeRequest::LookupIdentityMethod),
                _ => SetupAction::Abort,
            },
            RuntimeRequest::LookupIdentityMethod => match reply {
                RuntimeReply::Found => SetupAction::Ask(RuntimeRequest::LookupOverrideClass),
                _ => SetupAction::Abort,
            },
            RuntimeRequest::LookupOverrideClass => match reply {
                RuntimeReply::Found => SetupAction::Ask(RuntimeRequest::LookupOverrideMethod),
                _ => SetupAction::Abort,
            },
            RuntimeRequest::LookupOverrideMethod => match reply {
                RuntimeReply::Found => SetupAction::Ask(RuntimeRequest::ExchangeImplementations),
                _ => SetupAction::Abort,
            },
            RuntimeRequest::ExchangeImplementations => match reply {
                RuntimeReply::Exchanged => {
                    process.record_exchange();
                    SetupAction::Ask(RuntimeRequest::QueryBundleIdentifier)
                },
                _ => SetupAction::Abort,
            },
            RuntimeRequest::QueryBundleIdentifier => match reply {
                RuntimeReply::Identifier(identifier) => SetupAction::Finished(
                    is_spoofed_identifier(identifier),
                ),
                _ => SetupAction::Abort,
            },
        };
        self.pending = next;
        next
    }
}

/// Starts a setup of the identity override in a process whose state is
/// `process`. It must have run to `Finished(true)` before a notification is
/// delivered, and is meant to run once in the life of a process.
///
/// A second setup in the same process exchanges the implementations a second
/// time, which puts the process's own identity back.
pub fn init(process: &IdentityOverrideState) -> (setup: OverrideSetup)
    ensures
        setup.pending() == first_action(process@),
{
    if process.class_registered() {
        OverrideSetup { pending: SetupAction::Ask(RuntimeRequest::LookupBundleClass) }
    } else {
        OverrideSetup { pending: SetupAction::Ask(RuntimeRequest::LookupRootClass) }
    }
}

} // verus!
