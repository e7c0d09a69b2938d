//! Notifications as the daemon keeps them and as the frontend receives them.
use vstd::prelude::*;
use crate::launcher::types::{copy_opt_string, copy_strings, opt_view, views};

verus! {

/// How urgent a notification is (the FDO `urgency` hint: 0, 1, 2).
#[derive(Debug, Clone, Copy, PartialEq, Eq, Structural)]
pub enum Urgency {
    Low,
    Normal,
    Critical,
}

impl Default for Urgency {
    fn default() -> (r: Self)
        ensures
            r == Urgency::Normal,
    {
        Urgency::Normal
    }
}

/// An image sent with a notification, re-encoded as PNG and then base64.
#[derive(Debug, Clone)]
pub struct NotificationImage {
    pub width: i32,
    pub height: i32,
    pub rowstride: i32,
    pub has_alpha: bool,
    pub bits_per_sample: i32,
    pub channels: i32,
    /// PNG-encoded bytes, base64 for JSON serialization
    pub data_b64: String,
}

/// The content of a [`NotificationImage`].
pub struct NotificationImageView {
    pub width: i32,
    pub height: i32,
    pub rowstride: i32,
    pub has_alpha: bool,
    pub bits_per_sample: i32,
    pub channels: i32,
    pub data_b64: Seq<char>,
}

impl View for NotificationImage {
    type V = NotificationImageView;

    open spec fn view(&self) -> NotificationImageView {
        NotificationImageView {
            width: self.width,
            height: self.height,
            rowstride: self.rowstride,
            has_alpha: self.has_alpha,
            bits_per_sample: self.bits_per_sample,
            channels: self.channels,
            data_b64: self.data_b64@,
        }
    }
}

/// One notification.
#[derive(Debug, Clone)]
pub struct Notification {
    pub id: u32,
    pub app_name: String,
    pub app_icon: String,
    pub summary: String,
    /// Sanitized body (FDO markup subset only)
    pub body: String,
    /// Alternating [key, label, key, label, …] pairs
    pub actions: Vec<String>,
    pub urgency: Urgency,
    pub category: Option<String>,
    pub desktop_entry: Option<String>,
    pub image: Option<NotificationImage>,
    pub image_path: Option<String>,
    pub resident: bool,
    pub transient: bool,
    /// None → persistent; Some(ms) → auto-close after ms
    pub expire_timeout_ms: Option<u64>,
    pub created_at: u64,
}

/// The content of an optional image.
pub open spec fn opt_image_view(i: Option<NotificationImage>) -> Option<NotificationImageView> {
    match i {
        Some(x) => Some(x@),
        None => None,
    }
}

/// The content of a [`Notification`].
pub struct NotificationView {
    pub id: u32,
    pub app_name: Seq<char>,
    pub app_icon: Seq<char>,
    pub summary: Seq<char>,
    pub body: Seq<char>,
    pub actions: Seq<Seq<char>>,
    pub urgency: Urgency,
    pub category: Option<Seq<char>>,
    pub desktop_entry: Option<Seq<char>>,
    pub image: Option<NotificationImageView>,
    pub image_path: Option<Seq<char>>,
    pub resident: bool,
    pub transient: bool,
    pub expire_timeout_ms: Option<u64>,
    pub created_at: u64,
}

impl View for Notification {
    type V = NotificationView;

    open spec fn view(&self) -> NotificationView {
        NotificationView {
            id: self.id,
            app_name: self.app_name@,
            app_icon: self.app_icon@,
            summary: self.summary@,
            body: self.body@,
            actions: views(self.actions@),
            urgency: self.urgency,
            category: opt_view(self.category),
            desktop_entry: opt_view(self.desktop_entry),
            image: opt_image_view(self.image),
            image_path: opt_view(self.image_path),
            resident: self.resident,
            transient: self.transient,
            expire_timeout_ms: self.expire_timeout_ms,
            created_at: self.created_at,
        }
    }
}

/// The content of each notification.
pub open spec fn notification_views(s: Seq<Notification>) -> Seq<NotificationView> {
    s.map_values(|n: Notification| n@)
}

impl NotificationImage {
    /// A field-by-field copy.
    pub fn duplicate(&self) -> (r: NotificationImage)
        ensures
            r@ == self@,
    {
        NotificationImage {
            width: self.width,
            height: self.height,
            rowstride: self.rowstride,
            has_alpha: self.has_alpha,
            bits_per_sample: self.bits_per_sample,
            channels: self.channels,
            data_b64: self.data_b64.clone(),
        }
    }
}

impl Notification {
    /// A field-by-field copy.
    pub fn duplicate(&self) -> (r: Notification)
        ensures
            r@ == self@,
    {
        let image = match &self.image {
            Some(i) => Some(i.duplicate()),
            None => None,
        };
        Notification {
            id: self.id,
            app_name: self.app_name.clone(),
            app_icon: self.app_icon.clone(),
            summary: self.summary.clone(),
            body: self.body.clone(),
            actions: copy_strings(&self.actions),
            urgency: self.urgency,
            category: copy_opt_string(&self.category),
            desktop_entry: copy_opt_string(&self.desktop_entry),
            image,
            image_path: copy_opt_string(&self.image_path),
            resident: self.resident,
            transient: self.transient,
            expire_timeout_ms: self.expire_timeout_ms,
            created_at: self.created_at,
        }
    }
}

/// Why a notification closed (the FDO `NotificationClosed` reasons).
#[derive(Debug, Clone, Copy, PartialEq, Eq, Structural)]
pub enum ClosedReason {
    Expired,
    Dismissed,
    CloseNotification,
    Undefined,
}

impl ClosedReason {
    /// The reason code of the FDO `NotificationClosed` signal.
    pub fn code(&self) -> (r: u32)
        ensures
            r == match *self {
                ClosedReason::Expired => 1u32,
                ClosedReason::Dismissed => 2u32,
                ClosedReason::CloseNotification => 3u32,
                ClosedReason::Undefined => 4u32,
            },
    {
        match self {
            ClosedReason::Expired => 1,
            ClosedReason::Dismissed => 2,
            ClosedReason::CloseNotification => 3,
            ClosedReason::Undefined => 4,
        }
    }
}

/// Events broadcast to the frontends.
#[derive(Debug, Clone)]
pub enum NotificationEvent {
    Added(Notification),
    Replaced { id: u32, notification: Notification },
    Closed { id: u32, reason: ClosedReason },
    ActionInvoked { id: u32, action_key: String },
    DndChanged { enabled: bool },
}

} // verus!
