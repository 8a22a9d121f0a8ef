//! The description of a notification, as a caller assembles it.

use vstd::prelude::*;
use crate::delivery::{
    delivery_operations, lemma_delivery_outcome, operations, HostCall, HostState,
    DELIVERY_WAIT_MILLIS,
};

verus! {

/// Where an image comes from, as a mathematical value.
pub enum ImageSource {
    /// A remote resource, by its address.
    Url(Seq<char>),
    /// A file on the local disk, by its path.
    File(Seq<char>),
}

/// Possible image sources for a [`Notification`].
#[derive(Clone, Copy, Debug, PartialEq, Eq)]
pub enum NotificationImage<'a> {
    /// A remote resource
    Url(&'a str),
    /// A local resource on the disk
    File(&'a str),
}

impl<'a> View for NotificationImage<'a> {
    type V = ImageSource;

    open spec fn view(&self) -> ImageSource {
        match *self {
            NotificationImage::Url(address) => ImageSource::Url(address@),
            NotificationImage::File(path) => ImageSource::File(path@),
        }
    }
}

/// What a notification says and shows, as a mathematical value.
///
/// Every field is optional on its own; the description with no field set is
/// valid and stands for a blank notification.
pub struct NotificationDescription {
    pub title: Option<Seq<char>>,
    pub subtitle: Option<Seq<char>>,
    pub body: Option<Seq<char>>,
    /// The image on the right of the notification.
    pub content_image: Option<ImageSource>,
    /// The image on the left of the notification, in place of the sender's icon.
    pub app_image: Option<ImageSource>,
}

impl NotificationDescription {
    /// The description with no field set.
    pub open spec fn blank() -> NotificationDescription {
        NotificationDescription {
            title: None,
            subtitle: None,
            body: None,
            content_image: None,
            app_image: None,
        }
    }

    /// This description with the title `text`, in place of any earlier one.
    pub open spec fn with_title(self, text: Seq<char>) -> NotificationDescription {
        NotificationDescription { title: Some(text), ..self }
    }

    /// This description with the subtitle `text`, in place of any earlier one.
    pub open spec fn with_subtitle(self, text: Seq<char>) -> NotificationDescription {
        NotificationDescription { subtitle: Some(text), ..self }
    }

    /// This description with the body `text`, in place of any earlier one.
    pub open spec fn with_body(self, text: Seq<char>) -> NotificationDescription {
        NotificationDescription { body: Some(text), ..self }
    }

    /// This description with the content image taken from `source`, in place
    /// of any earlier one.
    pub open spec fn with_content_image(self, source: ImageSource) -> NotificationDescription {
        NotificationDescription { content_image: Some(source), ..self }
    }

    /// This description with the app image taken from `source`, in place of
    /// any earlier one.
    pub open spec fn with_app_image(self, source: ImageSource) -> NotificationDescription {
        NotificationDescription { app_image: Some(source), ..self }
    }
}

/// A desktop notification.
///
/// Configurable via builder pattern before it is delivered.
#[derive(Clone, Copy, Debug)]
pub struct Notification<'a> {
    title: Option<&'a str>,
    subtitle: Option<&'a str>,
    body: Option<&'a str>,
    content_image: Option<NotificationImage<'a>>,
    app_image: Option<NotificationImage<'a>>,
}

impl<'a> View for Notification<'a> {
    type V = NotificationDescription;

    closed spec fn view(&self) -> NotificationDescription {
        NotificationDescription {
            title: match self.title {
                Some(s) => Some(s@),
                None => None,
            },
            subtitle: match self.subtitle {
                Some(s) => Some(s@),
                None => None,
            },
            body: match self.body {
                Some(s) => Some(s@),
                None => None,
            },
            content_image: match self.content_image {
                Some(i) => Some(i@),
                None => None,
            },
            app_image: match self.app_image {
                Some(i) => Some(i@),
                None => None,
            },
        }
    }
}

impl<'a> Notification<'a> {
    /// Creates a notification with no field set.
    pub fn new() -> (note: Notification<'a>)
        ensures
            note@ == NotificationDescription::blank(),
    {
        Notification { title: None, subtitle: None, body: None, content_image: None, app_image: None }
    }

    /// Sets the title of the notification.
    pub fn title(&mut self, title: &'a str) -> (ret: &mut Notification<'a>)
        ensures
            ret@ == old(self)@.with_title(title@),
            *final(self) == *final(ret),
    {
        self.title = Some(title);
        self
    }

    /// Sets the subtitle of the notification.
    pub fn subtitle(&mut self, subtitle: &'a str) -> (ret: &mut Notification<'a>)
        ensures
            ret@ == old(self)@.with_subtitle(subtitle@),
            *final(self) == *final(ret),
    {
        self.subtitle = Some(subtitle);
        self
    }

    /// Sets the body text of the notification.
    pub fn body(&mut self, body: &'a str) -> (ret: &mut Notification<'a>)
        ensures
            ret@ == old(self)@.with_body(body@),
            *final(self) == *final(ret),
    {
        self.body = Some(body);
        self
    }

    /// Sets the content image, which is shown on the right of the notification,
    /// to the contents of a file on the local disk.
    pub fn content_image_path(&mut self, path: &'a str) -> (ret: &mut Notification<'a>)
        ensures
            ret@ == old(self)@.with_content_image(ImageSource::File(path@)),
            *final(self) == *final(ret),
    {
        self.content_image = Some(NotificationImage::File(path));
        self
    }

    /// Sets the content image, which is shown on the right of the notification,
    /// to what a URL leads to.
    pub fn content_image_url(&mut self, url: &'a str) -> (ret: &mut Notification<'a>)
        ensures
            ret@ == old(self)@.with_content_image(ImageSource::Url(url@)),
            *final(self) == *final(ret),
    {
        self.content_image = Some(NotificationImage::Url(url));
        self
    }

    /// Sets the app image, which is shown on the left of the notification, to
    /// the contents of a file on the local disk. The host offers no public way
    /// to set this image: it may stop being shown with any host version.
    pub fn app_image_path(&mut self, path: &'a str) -> (ret: &mut Notification<'a>)
        ensures
            ret@ == old(self)@.with_app_image(ImageSource::File(path@)),
            *final(self) == *final(ret),
    {
        self.app_image = Some(NotificationImage::File(path));
        self
    }

    /// Sets the app image, which is shown on the left of the notification, to
    /// what a URL leads to. The host offers no public way to set this image: it
    /// may stop being shown with any host version.
    pub fn app_image_url(&mut self, url: &'a str) -> (ret: &mut Notification<'a>)
        ensures
            ret@ == old(self)@.with_app_image(ImageSource::Url(url@)),
            *final(self) == *final(ret),
    {
        self.app_image = Some(NotificationImage::Url(url));
        self
    }

    /// Lays out the delivery of the notification: the host calls that show
    /// it, in the order in which they are to be made.
    ///
    /// There is a delivery for every notification, the blank one too, and
    /// none of its calls can fail the caller: an image that cannot be
    /// loaded is left out by the host.
    pub fn deliver(&self) -> (calls: Vec<HostCall<'a>>)
        ensures
            operations(calls@) == delivery_operations(self@),
    {
        let mut calls: Vec<HostCall<'a>> = Vec::new();
        calls.push(HostCall::CreateRecord);
        if let Some(title) = self.title {
            calls.push(HostCall::SetTitle(title));
        }
        if let Some(subtitle) = self.subtitle {
            calls.push(HostCall::SetSubtitle(subtitle));
        }
        if let Some(body) = self.body {
            calls.push(HostCall::SetInformativeText(body));
        }
        if let Some(image) = self.content_image {
            calls.push(HostCall::SetContentImage(image));
        }
        if let Some(image) = self.app_image {
            calls.push(HostCall::SetIdentityImage(image));
        }
        calls.push(HostCall::Submit);
        calls.push(HostCall::Release);
        calls.push(HostCall::PumpRunLoop(DELIVERY_WAIT_MILLIS));
        assert(operations(calls@) =~= delivery_operations(self@));
        calls
    }
}

/// The title, the subtitle and the body do not touch one another: set in any
/// of the six orders they give the same description, which holds the three
/// texts as they were given and the images as they were before.
pub proof fn lemma_text_fields_are_independent(
    description: NotificationDescription,
    title: Seq<char>,
    subtitle: Seq<char>,
    body: Seq<char>,
)
    ensures
        ({
            let set = NotificationDescription {
                title: Some(title),
                subtitle: Some(subtitle),
                body: Some(body),
                ..description
            };
            &&& description.with_title(title).with_subtitle(subtitle).with_body(body) == set
            &&& description.with_title(title).with_body(body).with_subtitle(subtitle) == set
            &&& description.with_subtitle(subtitle).with_title(title).with_body(body) == set
            &&& description.with_subtitle(subtitle).with_body(body).with_title(title) == set
            &&& description.with_body(body).with_title(title).with_subtitle(subtitle) == set
            &&& description.with_body(body).with_subtitle(subtitle).with_title(title) == set
        }),
{
}

/// The two image slots do not touch one another nor the texts: an image set
/// before or after another field gives the same description.
pub proof fn lemma_images_are_independent(
    description: NotificationDescription,
    text: Seq<char>,
    content: ImageSource,
    app: ImageSource,
)
    ensures
        description.with_content_image(content).with_app_image(app) == description.with_app_image(
            app,
        ).with_content_image(content),
        description.with_content_image(content).with_title(text) == description.with_title(
            text,
        ).with_content_image(content),
        description.with_content_image(content).with_subtitle(text) == description.with_subtitle(
            text,
        ).with_content_image(content),
        description.with_content_image(content).with_body(text) == description.with_body(
            text,
        ).with_content_image(content),
        description.with_app_image(app).with_title(text) == description.with_title(
            text,
        ).with_app_image(app),
        description.with_app_image(app).with_subtitle(text) == description.with_subtitle(
            text,
        ).with_app_image(app),
        description.with_app_image(app).with_body(text) == description.with_body(
            text,
        ).with_app_image(app),
{
}

/// A field that is set twice holds what was set last. For an image slot this
/// is so whether the two sources are of one kind or not.
pub proof fn lemma_last_setting_stands(
    description: NotificationDescription,
    earlier: Seq<char>,
    later: Seq<char>,
    earlier_source: ImageSource,
    later_source: ImageSource,
)
    ensures
        description.with_title(earlier).with_title(later) == description.with_title(later),
        description.with_subtitle(earlier).with_subtitle(later) == description.with_subtitle(
            later,
        ),
        description.with_body(earlier).with_body(later) == description.with_body(later),
        description.with_content_image(earlier_source).with_content_image(later_source)
            == description.with_content_image(later_source),
        description.with_app_image(earlier_source).with_app_image(later_source)
            == description.with_app_image(later_source),
{
}

/// A notification on which title, subtitle and body were set, in any order,
/// is delivered as one record that holds exactly the three texts, each in
/// its own field, whatever becomes of its images.
pub proof fn lemma_texts_reach_the_record(
    state: HostState,
    description: NotificationDescription,
    title: Seq<char>,
    subtitle: Seq<char>,
    body: Seq<char>,
)
    ensures
        ({
            let set = description.with_title(title).with_subtitle(subtitle).with_body(body);
            let after = state.perform_all(delivery_operations(set));
            &&& after.submitted.len() == state.submitted.len() + 1
            &&& after.submitted.last().title == Some(title)
            &&& after.submitted.last().subtitle == Some(subtitle)
            &&& after.submitted.last().informative_text == Some(body)
            &&& after.submitted.last() == state.record_of(set)
        }),
{
    lemma_delivery_outcome(
        state,
        description.with_title(title).with_subtitle(subtitle).with_body(body),
    );
}

} // verus!
