use macos_notifications::identity::{
    is_spoofed_identifier, IdentityOverrideState, BUNDLE_CLASS, IDENTITY_SELECTOR, OVERRIDE_CLASS,
    OVERRIDE_SELECTOR, ROOT_CLASS, SPOOFED_BUNDLE_IDENTIFIER,
};
use macos_notifications::setup::{OverrideSetup, RuntimeReply, RuntimeRequest, SetupAction};

/// A runtime of two methods whose implementations can be exchanged, in a
/// process whose bundle has the identifier `genuine`.
struct Runtime {
    genuine: Option<String>,
    override_class: bool,
    exchanged: bool,
    asked: Vec<RuntimeRequest>,
}

impl Runtime {
    fn new(genuine: Option<&str>) -> Runtime {
        Runtime {
            genuine: genuine.map(String::from),
            override_class: false,
            exchanged: false,
            asked: Vec::new(),
        }
    }

    fn identifier(&self) -> Option<String> {
        if self.exchanged {
            Some(String::from("com.apple.Terminal"))
        } else {
            self.genuine.clone()
        }
    }

    fn answer(&mut self, request: RuntimeRequest) -> RuntimeReply {
        self.asked.push(request);
        match request {
            RuntimeRequest::LookupRootClass
            | RuntimeRequest::LookupBundleClass
            | RuntimeRequest::LookupIdentityMethod => RuntimeReply::Found,
            RuntimeRequest::RegisterOverrideClass => {
                if self.override_class {
                    RuntimeReply::Missing
                } else {
                    self.override_class = true;
                    RuntimeReply::Found
                }
            }
            RuntimeRequest::LookupOverrideClass | RuntimeRequest::LookupOverrideMethod => {
                if self.override_class {
                    RuntimeReply::Found
                } else {
                    RuntimeReply::Missing
                }
            }
            RuntimeRequest::ExchangeImplementations => {
                self.exchanged = !self.exchanged;
                RuntimeReply::Exchanged
            }
            RuntimeRequest::QueryBundleIdentifier => RuntimeReply::Identifier(self.identifier()),
        }
    }
}

/// Runs one whole setup and gives the action with which it ended.
fn apply(process: &mut IdentityOverrideState, runtime: &mut Runtime) -> SetupAction {
    let mut setup = macos_notifications::init(process);
    let mut action = setup.action();
    let mut rounds = 0;
    while let SetupAction::Ask(request) = action {
        let reply = runtime.answer(request);
        action = setup.advance(process, &reply);
        rounds += 1;
        assert!(rounds <= 8);
    }
    assert_eq!(setup.action(), action);
    action
}

/// Puts `replies` to a fresh setup in a fresh process.
fn feed(replies: Vec<RuntimeReply>) -> (OverrideSetup, IdentityOverrideState, Vec<SetupAction>) {
    let mut process = IdentityOverrideState::new();
    let mut setup = macos_notifications::init(&process);
    let mut actions = vec![setup.action()];
    for reply in replies.iter() {
        actions.push(setup.advance(&mut process, reply));
    }
    (setup, process, actions)
}

fn found(n: usize) -> Vec<RuntimeReply> {
    let mut replies = Vec::new();
    for _ in 0..n {
        replies.push(RuntimeReply::Found);
    }
    replies
}

#[test]
fn init() {
    let mut process = IdentityOverrideState::new();
    let mut runtime = Runtime::new(None);
    let outcome = apply(&mut process, &mut runtime);
    assert_eq!(outcome, SetupAction::Finished(true));
    assert!(process.is_active());
    assert!(process.class_registered());
    assert_eq!(
        runtime.asked,
        vec![
            RuntimeRequest::LookupRootClass,
            RuntimeRequest::RegisterOverrideClass,
            RuntimeRequest::LookupBundleClass,
            RuntimeRequest::LookupIdentityMethod,
            RuntimeRequest::LookupOverrideClass,
            RuntimeRequest::LookupOverrideMethod,
            RuntimeRequest::ExchangeImplementations,
            RuntimeRequest::QueryBundleIdentifier,
        ]
    );
}

#[test]
fn fresh_process_is_unapplied() {
    let process = IdentityOverrideState::new();
    assert!(!process.is_active());
    assert!(!process.class_registered());
    let setup = macos_notifications::init(&process);
    assert_eq!(setup.action(), SetupAction::Ask(RuntimeRequest::LookupRootClass));
}

#[test]
fn first_apply_reports_true_whatever_the_own_identifier() {
    for genuine in [None, Some("org.example.tool"), Some("com.apple.Terminal"), Some("")] {
        let mut process = IdentityOverrideState::new();
        let mut runtime = Runtime::new(genuine);
        assert_eq!(apply(&mut process, &mut runtime), SetupAction::Finished(true));
        assert!(process.is_active());
        assert_eq!(runtime.identifier(), Some(String::from("com.apple.Terminal")));
    }
}

#[test]
fn second_apply_reverts_the_exchange() {
    let mut process = IdentityOverrideState::new();
    let mut runtime = Runtime::new(Some("org.example.tool"));
    assert_eq!(apply(&mut process, &mut runtime), SetupAction::Finished(true));
    runtime.asked.clear();
    assert_eq!(apply(&mut process, &mut runtime), SetupAction::Finished(false));
    assert!(!process.is_active());
    assert!(process.class_registered());
    assert_eq!(runtime.identifier(), Some(String::from("org.example.tool")));
    assert_ne!(runtime.identifier(), Some(String::from(SPOOFED_BUNDLE_IDENTIFIER)));
    assert_eq!(
        runtime.asked,
        vec![
            RuntimeRequest::LookupBundleClass,
            RuntimeRequest::LookupIdentityMethod,
            RuntimeRequest::LookupOverrideClass,
            RuntimeRequest::LookupOverrideMethod,
            RuntimeRequest::ExchangeImplementations,
            RuntimeRequest::QueryBundleIdentifier,
        ]
    );
}

#[test]
fn second_apply_without_own_identifier_reports_false() {
    let mut process = IdentityOverrideState::new();
    let mut runtime = Runtime::new(None);
    assert_eq!(apply(&mut process, &mut runtime), SetupAction::Finished(true));
    assert_eq!(apply(&mut process, &mut runtime), SetupAction::Finished(false));
    assert_eq!(runtime.identifier(), None);
    assert!(!process.is_active());
}

#[test]
fn third_apply_installs_again() {
    let mut process = IdentityOverrideState::new();
    let mut runtime = Runtime::new(Some("org.example.tool"));
    assert_eq!(apply(&mut process, &mut runtime), SetupAction::Finished(true));
    assert_eq!(apply(&mut process, &mut runtime), SetupAction::Finished(false));
    assert_eq!(apply(&mut process, &mut runtime), SetupAction::Finished(true));
    assert!(process.is_active());
}

#[test]
fn second_apply_in_a_terminal_still_reports_true() {
    let mut process = IdentityOverrideState::new();
    let mut runtime = Runtime::new(Some("com.apple.Terminal"));
    assert_eq!(apply(&mut process, &mut runtime), SetupAction::Finished(true));
    assert_eq!(apply(&mut process, &mut runtime), SetupAction::Finished(true));
    assert!(!process.is_active());
}

#[test]
fn missing_ends_the_setup_at_every_request() {
    for lookups in 0..6 {
        let mut replies = found(lookups);
        replies.push(RuntimeReply::Missing);
        let (setup, process, actions) = feed(replies);
        assert_eq!(setup.action(), SetupAction::Abort);
        assert_eq!(actions.len(), lookups + 2);
        assert_eq!(actions[lookups + 1], SetupAction::Abort);
        assert!(!process.is_active());
        assert_eq!(process.class_registered(), lookups >= 2);
    }
    let mut replies = found(6);
    replies.push(RuntimeReply::Missing);
    let (setup, process, _) = feed(replies);
    assert_eq!(setup.action(), SetupAction::Abort);
    assert!(!process.is_active());
    let mut replies = found(6);
    replies.push(RuntimeReply::Exchanged);
    replies.push(RuntimeReply::Missing);
    let (setup, process, _) = feed(replies);
    assert_eq!(setup.action(), SetupAction::Abort);
    assert!(process.is_active());
}

#[test]
fn exchange_is_asked_only_after_every_lookup() {
    let (_, process, actions) = feed(found(6));
    assert_eq!(
        actions,
        vec![
            SetupAction::Ask(RuntimeRequest::LookupRootClass),
            SetupAction::Ask(RuntimeRequest::RegisterOverrideClass),
            SetupAction::Ask(RuntimeRequest::LookupBundleClass),
            SetupAction::Ask(RuntimeRequest::LookupIdentityMethod),
            SetupAction::Ask(RuntimeRequest::LookupOverrideClass),
            SetupAction::Ask(RuntimeRequest::LookupOverrideMethod),
            SetupAction::Ask(RuntimeRequest::ExchangeImplementations),
        ]
    );
    assert!(process.class_registered());
    assert!(!process.is_active());
}

#[test]
fn answer_of_the_wrong_kind_ends_the_setup() {
    let (setup, process, _) = feed(vec![RuntimeReply::Exchanged]);
    assert_eq!(setup.action(), SetupAction::Abort);
    assert!(!process.class_registered());
    let (setup, _, _) = feed(vec![RuntimeReply::Identifier(Some(String::from(
        "com.apple.Terminal",
    )))]);
    assert_eq!(setup.action(), SetupAction::Abort);
    let mut replies = found(7);
    replies.push(RuntimeReply::Identifier(None));
    let (setup, process, _) = feed(replies);
    assert_eq!(setup.action(), SetupAction::Abort);
    assert!(!process.is_active());
    let mut replies = found(6);
    replies.push(RuntimeReply::Exchanged);
    replies.push(RuntimeReply::Found);
    let (setup, process, _) = feed(replies);
    assert_eq!(setup.action(), SetupAction::Abort);
    assert!(process.is_active());
}

#[test]
fn report_follows_the_identifier() {
    let cases = [
        (Some("com.apple.Terminal"), true),
        (Some("com.apple.terminal"), false),
        (Some("com.apple.Terminal "), false),
        (Some("com.apple.Termina"), false),
        (Some("org.example.tool"), false),
        (Some(""), false),
        (None, false),
    ];
    for (identifier, expected) in cases {
        let mut replies = found(6);
        replies.push(RuntimeReply::Exchanged);
        replies.push(RuntimeReply::Identifier(identifier.map(String::from)));
        let (setup, process, actions) = feed(replies);
        assert_eq!(setup.action(), SetupAction::Finished(expected));
        assert_eq!(actions[8], SetupAction::Finished(expected));
        assert_eq!(actions[7], SetupAction::Ask(RuntimeRequest::QueryBundleIdentifier));
        assert!(process.is_active());
    }
}

#[test]
fn setup_that_is_over_stays_over() {
    let mut replies = found(6);
    replies.push(RuntimeReply::Exchanged);
    replies.push(RuntimeReply::Identifier(Some(String::from("com.apple.Terminal"))));
    let (mut setup, mut process, _) = feed(replies);
    for reply in [
        RuntimeReply::Found,
        RuntimeReply::Missing,
        RuntimeReply::Exchanged,
        RuntimeReply::Identifier(None),
    ] {
        assert_eq!(setup.advance(&mut process, &reply), SetupAction::Finished(true));
        assert!(process.is_active());
    }
    let (mut setup, mut process, _) = feed(vec![RuntimeReply::Missing]);
    for reply in [RuntimeReply::Found, RuntimeReply::Exchanged] {
        assert_eq!(setup.advance(&mut process, &reply), SetupAction::Abort);
        assert!(!process.is_active());
        assert!(!process.class_registered());
    }
}

#[test]
fn registered_process_is_not_asked_to_register_again() {
    let mut process = IdentityOverrideState::new();
    let mut runtime = Runtime::new(None);
    apply(&mut process, &mut runtime);
    let setup = macos_notifications::init(&process);
    assert_eq!(setup.action(), SetupAction::Ask(RuntimeRequest::LookupBundleClass));
}

#[test]
fn forgotten_state_ends_at_the_registration() {
    let mut runtime = Runtime::new(None);
    let mut process = IdentityOverrideState::new();
    assert_eq!(apply(&mut process, &mut runtime), SetupAction::Finished(true));
    let mut forgotten = IdentityOverrideState::new();
    assert_eq!(apply(&mut forgotten, &mut runtime), SetupAction::Abort);
    assert!(!forgotten.class_registered());
    assert!(!forgotten.is_active());
}

#[test]
fn spoofed_identifier_is_recognised() {
    assert!(is_spoofed_identifier(&Some(String::from("com.apple.Terminal"))));
    assert!(is_spoofed_identifier(&Some(String::from(SPOOFED_BUNDLE_IDENTIFIER))));
    assert!(!is_spoofed_identifier(&Some(String::from("com.apple.Terminal2"))));
    assert!(!is_spoofed_identifier(&Some(String::from("com.apple.Finder"))));
    assert!(!is_spoofed_identifier(&Some(String::new())));
    assert!(!is_spoofed_identifier(&None));
}

#[test]
fn runtime_names() {
    assert_eq!(SPOOFED_BUNDLE_IDENTIFIER, "com.apple.Terminal");
    assert_eq!(ROOT_CLASS, "NSObject");
    assert_eq!(BUNDLE_CLASS, "NSBundle");
    assert_eq!(IDENTITY_SELECTOR, "bundleIdentifier");
    assert_eq!(OVERRIDE_CLASS, "NSBundleOverride");
    assert_eq!(OVERRIDE_SELECTOR, "__bundleIdentifier");
}
