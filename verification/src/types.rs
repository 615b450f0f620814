//! Enumerations and plain data types shared by the whole SDK.
use vstd::prelude::*;

verus! {

/// Hook timing options.
#[derive(Debug, Clone, Copy, PartialEq, Eq, Structural)]
pub enum TriggerTiming {
    /// Execute before the main operation.
    Before,
    /// Execute after the main operation.
    After,
}

impl Default for TriggerTiming {
    fn default() -> (r: Self)
        ensures
            r == TriggerTiming::Before,
    {
        TriggerTiming::Before
    }
}

/// Notification type options.
#[derive(Debug, Clone, Copy, PartialEq, Eq, Structural)]
pub enum NotificationType {
    /// Informational notification.
    Info,
    /// Success notification.
    Success,
    /// Warning notification.
    Warning,
    /// Error notification.
    Error,
}

impl Default for NotificationType {
    fn default() -> (r: Self)
        ensures
            r == NotificationType::Info,
    {
        NotificationType::Info
    }
}

/// Notification channel options.
#[derive(Debug, Clone, Copy, PartialEq, Eq, Structural)]
pub enum NotificationChannel {
    /// In-app notification.
    InApp,
    /// Email notification.
    Email,
    /// SMS notification.
    Sms,
    /// Push notification.
    Push,
    /// Slack notification.
    Slack,
    /// Webhook notification.
    Webhook,
}

impl Default for NotificationChannel {
    fn default() -> (r: Self)
        ensures
            r == NotificationChannel::InApp,
    {
        NotificationChannel::InApp
    }
}

/// Content status options.
#[derive(Debug, Clone, Copy, PartialEq, Eq, Structural)]
pub enum ContentStatus {
    /// Draft content.
    Draft,
    /// Pending review.
    Pending,
    /// Published content.
    Published,
    /// Scheduled for publication.
    Scheduled,
    /// Archived content.
    Archived,
}

impl Default for ContentStatus {
    fn default() -> (r: Self)
        ensures
            r == ContentStatus::Draft,
    {
        ContentStatus::Draft
    }
}

/// The error of a failed (de)serialisation.
#[verifier::external_type_specification]
#[verifier::external_body]
pub struct ExJsonError(serde_json::Error);

/// SDK error types.
#[derive(Debug)]
pub enum SdkError {
    /// Hook validation error.
    HookValidation(String),
    /// Invalid trigger pattern.
    InvalidTrigger(String),
    /// Plugin error.
    Plugin(String),
    /// HTTP error.
    Http(String),
    /// Serialization error.
    Serialization(serde_json::Error),
    /// Other error.
    Other(String),
}

/// Theme metadata.
#[derive(Debug, Clone)]
pub struct ThemeMetadata {
    /// Theme display name.
    pub name: String,
    /// Theme version.
    pub version: String,
    /// Theme description.
    pub description: Option<String>,
    /// Theme author.
    pub author: Option<String>,
    /// Theme screenshot URL.
    pub screenshot: Option<String>,
    /// Supported features.
    pub supports: Vec<String>,
}

/// App metadata.
#[derive(Debug, Clone)]
pub struct AppMetadata {
    /// App display name.
    pub name: String,
    /// App version.
    pub version: String,
    /// App description.
    pub description: Option<String>,
    /// App author.
    pub author: Option<String>,
    /// App icon URL.
    pub icon: Option<String>,
    /// Required permissions.
    pub permissions: Vec<String>,
}

} // verus!
