//! The identity that the process takes on, and whether it has taken it on.
//!
//! The host asks a process for its bundle identifier before it shows a
//! notification of it. The override exchanges the implementation of that
//! query with one that answers with the identifier of a registered
//! application. The exchange is made in the runtime's method table, so it
//! holds for every caller in the process, the host's own code included, and
//! for the rest of the process's life.

use vstd::prelude::*;

verus! {

/// The bundle identifier that the process answers with once the override is
/// active: that of the system's terminal application, which is installed on
/// every machine and may post notifications.
pub const SPOOFED_BUNDLE_IDENTIFIER: &'static str = "com.apple.Terminal";

/// The class that every class of the runtime descends from, and under which
/// the override class is declared.
pub const ROOT_CLASS: &'static str = "NSObject";

/// The class whose instances describe bundles.
pub const BUNDLE_CLASS: &'static str = "NSBundle";

/// The selector by which a bundle is asked for its identifier.
pub const IDENTITY_SELECTOR: &'static str = "bundleIdentifier";

/// The class that is declared to carry the override accessor.
pub const OVERRIDE_CLASS: &'static str = "NSBundleOverride";

/// The selector of the override accessor. After the exchange it leads to the
/// implementation that the bundle class came with.
pub const OVERRIDE_SELECTOR: &'static str = "__bundleIdentifier";

/// [`SPOOFED_BUNDLE_IDENTIFIER`] as a sequence of characters.
pub open spec fn spoofed_identifier() -> Seq<char> {
    SPOOFED_BUNDLE_IDENTIFIER@
}

/// Whether `identifier`, as the main bundle gave it, is the spoofed one. A
/// bundle without an identifier gives none.
pub fn is_spoofed_identifier(identifier: &Option<String>) -> (spoofed: bool)
    ensures
        spoofed == (identifier matches Some(text) && text@ == spoofed_identifier()),
{
    match identifier {
        Some(text) => {
            let expected: String = SPOOFED_BUNDLE_IDENTIFIER.to_owned();
            *text == expected
        },
        None => false,
    }
}

/// What the override has done to the process, as a mathematical value.
pub struct IdentityOverrideModel {
    /// Whether the override class stands in the runtime's class table.
    pub class_registered: bool,
    /// Whether the identity query leads to the override accessor.
    pub active: bool,
}

impl IdentityOverrideModel {
    /// The process before anything was done to it.
    pub open spec fn unapplied() -> IdentityOverrideModel {
        IdentityOverrideModel { class_registered: false, active: false }
    }

    /// The process once the override class was registered.
    pub open spec fn registered(self) -> IdentityOverrideModel {
        IdentityOverrideModel { class_registered: true, ..self }
    }

    /// The process once the two implementations were exchanged. An exchange
    /// does not install the override, it swaps: made on an active override
    /// it puts back the implementation that the bundle class came with.
    pub open spec fn exchanged(self) -> IdentityOverrideModel {
        IdentityOverrideModel { active: !self.active, ..self }
    }

    /// What the identity query answers in this process, where `genuine` is what
    /// the bundle class answers of its own.
    pub open spec fn visible_identifier(self, genuine: Option<Seq<char>>) -> Option<Seq<char>> {
        if self.active {
            Some(spoofed_identifier())
        } else {
            genuine
        }
    }

    /// What the override accessor would answer if it were ever called.
    pub open spec fn shadowed_identifier(self, genuine: Option<Seq<char>>) -> Option<Seq<char>> {
        if self.active {
            genuine
        } else {
            Some(spoofed_identifier())
        }
    }
}

/// What the override has done to the process.
///
/// There is one such state per process. It changes only as a setup advances,
/// so that it records what was done to the runtime and nothing else.
#[derive(Debug)]
pub struct IdentityOverrideState {
    class_registered: bool,
    active: bool,
}

impl View for IdentityOverrideState {
    type V = IdentityOverrideModel;

    closed spec fn view(&self) -> IdentityOverrideModel {
        IdentityOverrideModel { class_registered: self.class_registered, active: self.active }
    }
}

impl IdentityOverrideState {
    /// The state of a process to which nothing was done yet.
    pub fn new() -> (state: IdentityOverrideState)
        ensures
            state@ == IdentityOverrideModel::unapplied(),
    {
        IdentityOverrideState { class_registered: false, active: false }
    }

    /// Whether the override class was registered.
    pub fn class_registered(&self) -> (registered: bool)
        ensures
            registered == self@.class_registered,
    {
        self.class_registered
    }

    /// Whether the override is active: whether the identity query answers
    /// with the spoofed identifier.
    pub fn is_active(&self) -> (active: bool)
        ensures
            active == self@.active,
    {
        self.active
    }

    /// Records that the override class was registered.
    pub(crate) fn record_registration(&mut self)
        ensures
            final(self)@ == old(self)@.registered(),
    {
        self.class_registered = true;
    }

    /// Records that the two implementations were exchanged.
    pub(crate) fn record_exchange(&mut self)
        ensures
            final(self)@ == old(self)@.exchanged(),
    {
        self.active = !self.active;
    }
}

/// An exchange made twice leaves the process as it was: the second undoes
/// the first.
pub proof fn lemma_exchange_is_an_involution(process: IdentityOverrideModel)
    ensures
        process.exchanged().exchanged() == process,
        process.exchanged().active != process.active,
{
}

/// Of the identity query and the override accessor one answers with the
/// spoofed identifier and the other with the genuine one, and an exchange swaps
/// which.
pub proof fn lemma_exchange_swaps_answers(process: IdentityOverrideModel, genuine: Option<Seq<char>>)
    ensures
        process.exchanged().visible_identifier(genuine) == process.shadowed_identifier(genuine),
        process.exchanged().shadowed_identifier(genuine) == process.visible_identifier(genuine),
        IdentityOverrideModel::unapplied().visible_identifier(genuine) == genuine,
        IdentityOverrideModel::unapplied().exchanged().visible_identifier(genuine) == Some(
            spoofed_identifier(),
        ),
{
}

} // verus!
