//! The host calls that deliver a notification, and what they leave behind.
//!
//! Delivery is laid out as a sequence of [`HostCall`]s. The program that owns
//! the connection to the host carries them out one after the other; this
//! module says which calls they are and, over a model of the host, what
//! record they produce.

use vstd::prelude::*;
use crate::notification::{ImageSource, NotificationDescription, NotificationImage};

verus! {

/// How long the calling thread's run loop is pumped after a notification was
/// handed over, in milliseconds: a fifth of a second. The time is fixed.
///
/// The host returns from the handover before the notification has reached the
/// display server. A process that exits at once would lose it.
pub const DELIVERY_WAIT_MILLIS: u64 = 200;

/// The key of the private slot that holds the image shown in place of the
/// sender's icon.
///
/// The slot is not part of the host's public interface and is set by key. A
/// later host version may no longer have it: what is written there is shown
/// at best.
pub const IDENTITY_IMAGE_KEY: &'static str = "_identityImage";

/// One call on the host's notification interface, as a mathematical value.
pub enum HostOperation {
    CreateRecord,
    SetTitle(Seq<char>),
    SetSubtitle(Seq<char>),
    SetInformativeText(Seq<char>),
    SetContentImage(ImageSource),
    SetIdentityImage(ImageSource),
    Submit,
    Release,
    PumpRunLoop(nat),
}

/// One call on the host's notification interface.
#[derive(Clone, Copy, Debug, PartialEq, Eq)]
pub enum HostCall<'a> {
    /// Create a new, empty notification record.
    CreateRecord,
    /// Set the record's title.
    SetTitle(&'a str),
    /// Set the record's subtitle.
    SetSubtitle(&'a str),
    /// Set the record's informative text, which is the notification's body.
    SetInformativeText(&'a str),
    /// Load the image from its source, at once, and put what came of it in the
    /// record's content-image slot. An image that could not be loaded is put
    /// there all the same; the host then shows none.
    SetContentImage(NotificationImage<'a>),
    /// Load the image from its source, at once, and put what came of it in the
    /// slot named by [`IDENTITY_IMAGE_KEY`].
    SetIdentityImage(NotificationImage<'a>),
    /// Hand the record to the default notification center for display.
    Submit,
    /// Give up the caller's reference to the record; the center keeps its own.
    Release,
    /// Pump the calling thread's run loop for so many milliseconds.
    PumpRunLoop(u64),
}

impl<'a> View for HostCall<'a> {
    type V = HostOperation;

    open spec fn view(&self) -> HostOperation {
        match *self {
            HostCall::CreateRecord => HostOperation::CreateRecord,
            HostCall::SetTitle(text) => HostOperation::SetTitle(text@),
            HostCall::SetSubtitle(text) => HostOperation::SetSubtitle(text@),
            HostCall::SetInformativeText(text) => HostOperation::SetInformativeText(text@),
            HostCall::SetContentImage(image) => HostOperation::SetContentImage(image@),
            HostCall::SetIdentityImage(image) => HostOperation::SetIdentityImage(image@),
            HostCall::Submit => HostOperation::Submit,
            HostCall::Release => HostOperation::Release,
            HostCall::PumpRunLoop(millis) => HostOperation::PumpRunLoop(millis as nat),
        }
    }
}

/// The operations that a sequence of calls stands for.
pub open spec fn operations<'a>(calls: Seq<HostCall<'a>>) -> Seq<HostOperation> {
    calls.map_values(|call: HostCall<'a>| call@)
}

/// The operations that set the fields of `description` which are present, in
/// the order title, subtitle, body, content image, identity image.
pub open spec fn field_operations(description: NotificationDescription) -> Seq<HostOperation> {
    (match description.title {
        Some(text) => seq![HostOperation::SetTitle(text)],
        None => seq![],
    }) + (match description.subtitle {
        Some(text) => seq![HostOperation::SetSubtitle(text)],
        None => seq![],
    }) + (match description.body {
        Some(text) => seq![HostOperation::SetInformativeText(text)],
        None => seq![],
    }) + (match description.content_image {
        Some(source) => seq![HostOperation::SetContentImage(source)],
        None => seq![],
    }) + (match description.app_image {
        Some(source) => seq![HostOperation::SetIdentityImage(source)],
        None => seq![],
    })
}

/// The operations that deliver `description`: a fresh record, its fields, the
/// handover, the release, and the wait that lets the handover get through.
pub open spec fn delivery_operations(description: NotificationDescription) -> Seq<HostOperation> {
    seq![HostOperation::CreateRecord] + field_operations(description) + seq![
        HostOperation::Submit,
        HostOperation::Release,
        HostOperation::PumpRunLoop(DELIVERY_WAIT_MILLIS as nat),
    ]
}

/// A notification record as the host holds it.
///
/// An image slot that is filled holds the source of its image.
pub struct HostRecord {
    pub title: Option<Seq<char>>,
    pub subtitle: Option<Seq<char>>,
    pub informative_text: Option<Seq<char>>,
    pub content_image: Option<ImageSource>,
    pub identity_image: Option<ImageSource>,
}

impl HostRecord {
    /// The record as the host creates it: every field at its default.
    pub open spec fn empty() -> HostRecord {
        HostRecord {
            title: None,
            subtitle: None,
            informative_text: None,
            content_image: None,
            identity_image: None,
        }
    }
}

/// The host as one calling thread sees it.
pub struct HostState {
    /// The sources of which the host's loader can make an image. Of any
    /// other source it makes no image, and says nothing.
    pub loadable: Set<ImageSource>,
    /// Whether this version of the host has the private slot for the
    /// identity image.
    pub identity_slot: bool,
    /// The record that the caller holds a reference to, if any.
    pub held: Option<HostRecord>,
    /// The records handed to the notification center, oldest first.
    pub submitted: Seq<HostRecord>,
    /// For how long the run loop has been pumped, in milliseconds.
    pub pumped_millis: nat,
}

impl HostState {
    /// What the host's loader makes of `source`.
    pub open spec fn load(self, source: ImageSource) -> Option<ImageSource> {
        if self.loadable.contains(source) {
            Some(source)
        } else {
            None
        }
    }

    /// The record by which this host shows `description`: each text in the
    /// field that the host has for it, and each image that the host can load
    /// in its slot. An image that it cannot load is missing from the record,
    /// and so is every identity image on a host without the slot for it.
    pub open spec fn record_of(self, description: NotificationDescription) -> HostRecord {
        HostRecord {
            title: description.title,
            subtitle: description.subtitle,
            informative_text: description.body,
            content_image: match description.content_image {
                Some(source) => self.load(source),
                None => None,
            },
            identity_image: match description.app_image {
                Some(source) if self.identity_slot => self.load(source),
                _ => None,
            },
        }
    }

    /// What one operation does to the host.
    ///
    /// A setter without a held record does nothing, and neither does a
    /// handover of no record: the host ignores a message to no object.
    pub open spec fn perform(self, operation: HostOperation) -> HostState {
        match operation {
            HostOperation::CreateRecord => HostState { held: Some(HostRecord::empty()), ..self },
            HostOperation::SetTitle(text) => match self.held {
                Some(record) => HostState {
                    held: Some(HostRecord { title: Some(text), ..record }),
                    ..self
                },
                None => self,
            },
            HostOperation::SetSubtitle(text) => match self.held {
                Some(record) => HostState {
                    held: Some(HostRecord { subtitle: Some(text), ..record }),
                    ..self
                },
                None => self,
            },
            HostOperation::SetInformativeText(text) => match self.held {
                Some(record) => HostState {
                    held: Some(HostRecord { informative_text: Some(text), ..record }),
                    ..self
                },
                None => self,
            },
            HostOperation::SetContentImage(source) => match self.held {
                Some(record) => HostState {
                    held: Some(HostRecord { content_image: self.load(source), ..record }),
                    ..self
                },
                None => self,
            },
            HostOperation::SetIdentityImage(source) => match self.held {
                Some(record) if self.identity_slot => HostState {
                    held: Some(HostRecord { identity_image: self.load(source), ..record }),
                    ..self
                },
                _ => self,
            },
            HostOperation::Submit => match self.held {
                Some(record) => HostState { submitted: self.submitted.push(record), ..self },
                None => self,
            },
            HostOperation::Release => HostState { held: None, ..self },
            HostOperation::PumpRunLoop(millis) => HostState {
                pumped_millis: self.pumped_millis + millis,
                ..self
            },
        }
    }

    /// What a sequence of operations does to the host, first operation first.
    pub open spec fn perform_all(self, operations: Seq<HostOperation>) -> HostState
        decreases operations.len(),
    {
        if operations.len() == 0 {
            self
        } else {
            self.perform_all(operations.drop_last()).perform(operations.last())
        }
    }
}

/// Performing one sequence after another is performing the two joined.
pub proof fn lemma_perform_all_concat(
    state: HostState,
    first: Seq<HostOperation>,
    second: Seq<HostOperation>,
)
    ensures
        state.perform_all(first + second) == state.perform_all(first).perform_all(second),
    decreases second.len(),
{
    if second.len() == 0 {
        assert(first + second =~= first);
    } else {
        lemma_perform_all_concat(state, first, second.drop_last());
        assert((first + second).drop_last() =~= first + second.drop_last());
        assert((first + second).last() == second.last());
    }
}

/// Performing a sequence of one operation is performing that operation.
proof fn lemma_perform_all_single(state: HostState, operation: HostOperation)
    ensures
        state.perform_all(seq![operation]) == state.perform(operation),
{
    let single = seq![operation];
    assert(single.drop_last() =~= Seq::<HostOperation>::empty());
    assert(single.last() == operation);
    assert(state.perform_all(single.drop_last()) == state);
}

/// The field operations of a description, performed on a freshly created
/// record, make of it the record by which the host shows the description.
proof fn lemma_fields_fill_record(state: HostState, description: NotificationDescription)
    requires
        state.held == Some(HostRecord::empty()),
    ensures
        state.perform_all(field_operations(description)) == (HostState {
            held: Some(state.record_of(description)),
            ..state
        }),
{
    let none = Seq::<HostOperation>::empty();
    let title = match description.title {
        Some(text) => seq![HostOperation::SetTitle(text)],
        None => none,
    };
    let subtitle = match description.subtitle {
        Some(text) => seq![HostOperation::SetSubtitle(text)],
        None => none,
    };
    let body = match description.body {
        Some(text) => seq![HostOperation::SetInformativeText(text)],
        None => none,
    };
    let content = match description.content_image {
        Some(source) => seq![HostOperation::SetContentImage(source)],
        None => none,
    };
    let identity = match description.app_image {
        Some(source) => seq![HostOperation::SetIdentityImage(source)],
        None => none,
    };
    assert(field_operations(description) =~= title + subtitle + body + content + identity);
    let s1 = state.perform_all(title);
    let s2 = s1.perform_all(subtitle);
    let s3 = s2.perform_all(body);
    let s4 = s3.perform_all(content);
    lemma_perform_all_concat(state, title, subtitle);
    lemma_perform_all_concat(state, title + subtitle, body);
    lemma_perform_all_concat(state, title + subtitle + body, content);
    lemma_perform_all_concat(state, title + subtitle + body + content, identity);
    if let Some(text) = description.title {
        lemma_perform_all_single(state, HostOperation::SetTitle(text));
    }
    if let Some(text) = description.subtitle {
        lemma_perform_all_single(s1, HostOperation::SetSubtitle(text));
    }
    if let Some(text) = description.body {
        lemma_perform_all_single(s2, HostOperation::SetInformativeText(text));
    }
    if let Some(source) = description.content_image {
        lemma_perform_all_single(s3, HostOperation::SetContentImage(source));
    }
    if let Some(source) = description.app_image {
        lemma_perform_all_single(s4, HostOperation::SetIdentityImage(source));
    }
}

/// A delivery hands exactly one record to the notification center: the one
/// by which the host shows the description. It leaves the caller without a
/// record, and returns only when the run loop was pumped for
/// [`DELIVERY_WAIT_MILLIS`]. This holds of every description, whatever the
/// host can load and whatever its state was before.
pub proof fn lemma_delivery_outcome(state: HostState, description: NotificationDescription)
    ensures
        state.perform_all(delivery_operations(description)) == (HostState {
            held: None,
            submitted: state.submitted.push(state.record_of(description)),
            pumped_millis: state.pumped_millis + DELIVERY_WAIT_MILLIS as nat,
            ..state
        }),
{
    let create = seq![HostOperation::CreateRecord];
    let fields = field_operations(description);
    let submit = seq![HostOperation::Submit];
    let release = seq![HostOperation::Release];
    let pump = seq![HostOperation::PumpRunLoop(DELIVERY_WAIT_MILLIS as nat)];
    assert(delivery_operations(description) =~= create + fields + submit + release + pump);
    let s1 = state.perform_all(create);
    let s2 = s1.perform_all(fields);
    let s3 = s2.perform_all(submit);
    let s4 = s3.perform_all(release);
    lemma_perform_all_concat(state, create, fields);
    lemma_perform_all_concat(state, create + fields, submit);
    lemma_perform_all_concat(state, create + fields + submit, release);
    lemma_perform_all_concat(state, create + fields + submit + release, pump);
    lemma_perform_all_single(state, HostOperation::CreateRecord);
    lemma_fields_fill_record(s1, description);
    lemma_perform_all_single(s2, HostOperation::Submit);
    lemma_perform_all_single(s3, HostOperation::Release);
    lemma_perform_all_single(s4, HostOperation::PumpRunLoop(DELIVERY_WAIT_MILLIS as nat));
}

/// The blank notification is delivered as well: as a record that the host
/// has created and nobody has written to.
pub proof fn lemma_blank_delivery(state: HostState)
    ensures
        delivery_operations(NotificationDescription::blank()) == seq![
            HostOperation::CreateRecord,
            HostOperation::Submit,
            HostOperation::Release,
            HostOperation::PumpRunLoop(DELIVERY_WAIT_MILLIS as nat),
        ],
        state.perform_all(delivery_operations(NotificationDescription::blank())).submitted
            == state.submitted.push(HostRecord::empty()),
{
    assert(delivery_operations(NotificationDescription::blank()) =~= seq![
        HostOperation::CreateRecord,
        HostOperation::Submit,
        HostOperation::Release,
        HostOperation::PumpRunLoop(DELIVERY_WAIT_MILLIS as nat),
    ]);
    lemma_delivery_outcome(state, NotificationDescription::blank());
}

/// An image that the host cannot load costs the notification that image and
/// nothing else: it is delivered as if the image had never been set, with
/// every other field as described. The same holds of any identity image on a
/// host that has no slot for it.
pub proof fn lemma_failed_image_is_left_out(state: HostState, description: NotificationDescription)
    ensures
        description.content_image matches Some(source) && !state.loadable.contains(source)
            ==> state.perform_all(delivery_operations(description)) == state.perform_all(
            delivery_operations(NotificationDescription { content_image: None, ..description }),
        ),
        description.app_image matches Some(source) && !(state.identity_slot
            && state.loadable.contains(source)) ==> state.perform_all(
            delivery_operations(description),
        ) == state.perform_all(
            delivery_operations(NotificationDescription { app_image: None, ..description }),
        ),
{
    lemma_delivery_outcome(state, description);
    lemma_delivery_outcome(state, NotificationDescription { content_image: None, ..description });
    lemma_delivery_outcome(state, NotificationDescription { app_image: None, ..description });
}

/// Deliveries made one after the other reach the notification center in the
/// order in which they were made.
pub proof fn lemma_deliveries_keep_order(
    state: HostState,
    first: NotificationDescription,
    second: NotificationDescription,
)
    ensures
        state.perform_all(delivery_operations(first) + delivery_operations(second)).submitted
            == state.submitted.push(state.record_of(first)).push(state.record_of(second)),
{
    lemma_perform_all_concat(state, delivery_operations(first), delivery_operations(second));
    lemma_delivery_outcome(state, first);
    lemma_delivery_outcome(state.perform_all(delivery_operations(first)), second);
}

/// Every delivery ends with the handover, the release and the wait, in that
/// order, and makes no other handover or wait: nothing is submitted before
/// the record is complete, and the caller is not let go before the wait.
pub proof fn lemma_delivery_ends_with_wait(description: NotificationDescription)
    ensures
        ({
            let operations = delivery_operations(description);
            let n = operations.len() as int;
            &&& 4 <= n <= 9
            &&& operations[0] == HostOperation::CreateRecord
            &&& operations[n - 3] == HostOperation::Submit
            &&& operations[n - 2] == HostOperation::Release
            &&& operations[n - 1] == HostOperation::PumpRunLoop(DELIVERY_WAIT_MILLIS as nat)
            &&& forall|i: int|
                0 <= i < n - 3 ==> !(#[trigger] operations[i] is Submit) && !(operations[i] is PumpRunLoop)
                    && !(operations[i] is Release)
        }),
{
    let operations = delivery_operations(description);
    let fields = field_operations(description);
    assert forall|i: int| 0 <= i < fields.len() implies !(#[trigger] fields[i] is Submit) && !(
    fields[i] is PumpRunLoop) && !(fields[i] is Release) && !(fields[i] is CreateRecord) by {}
    assert forall|i: int| 0 < i < operations.len() - 3 implies operations[i] == fields[i - 1] by {}
}

} // verus!
