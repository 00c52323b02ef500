//! Identifiers of the integrations offered through the connection service.
use vstd::prelude::*;
use crate::calendar::{CalendarProviderType, integration_provider, provider_for_integration};

verus! {

/// An integration of the connection service, named by its identifier there.
pub trait NangoIntegrationId {
    const ID: &'static str;
}

pub struct GoogleCalendar;

impl NangoIntegrationId for GoogleCalendar {
    const ID: &'static str = "google-calendar";
}

pub struct GoogleDrive;

impl NangoIntegrationId for GoogleDrive {
    const ID: &'static str = "google-drive";
}

pub struct GoogleMail;

impl NangoIntegrationId for GoogleMail {
    const ID: &'static str = "google-mail";
}

pub struct OutlookCalendar;

impl NangoIntegrationId for OutlookCalendar {
    const ID: &'static str = "outlook-calendar";
}

pub struct GitHub;

impl NangoIntegrationId for GitHub {
    const ID: &'static str = "github";
}

pub struct Linear;

impl NangoIntegrationId for Linear {
    const ID: &'static str = "linear";
}

/// The calendar provider that an integration's connections are synced with, if any.
pub fn calendar_provider_of<T: NangoIntegrationId>() -> (r: Option<CalendarProviderType>)
    ensures
        r == integration_provider(T::ID@),
{
    provider_for_integration(T::ID)
}

/// The two calendar integrations are synced with Google's and Outlook's calendars; the
/// other integrations are no calendar.
pub proof fn law_calendar_integrations()
    ensures
        integration_provider(GoogleCalendar::ID@) == Some(CalendarProviderType::Google),
        integration_provider(OutlookCalendar::ID@) == Some(CalendarProviderType::Outlook),
        integration_provider(GoogleDrive::ID@) is None,
        integration_provider(GoogleMail::ID@) is None,
        integration_provider(GitHub::ID@) is None,
        integration_provider(Linear::ID@) is None,
{
    assert(GoogleCalendar::ID@ == "google-calendar"@);
    assert(OutlookCalendar::ID@ == "outlook-calendar"@);
    reveal_strlit("google-calendar");
    reveal_strlit("outlook-calendar");
    reveal_strlit("google-drive");
    reveal_strlit("google-mail");
    reveal_strlit("github");
    reveal_strlit("linear");
}

} // verus!
