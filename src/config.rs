use vstd::prelude::*;

verus! {

/// The whole configuration: who hears operational messages, which services to
/// poll, and the named delivery sinks.
#[derive(Debug)]
pub struct Config {
    pub admin_notifications: Vec<String>,
    pub services: Vec<ServiceSettings>,
    /// Named sinks in declaration order.
    pub notifications: Vec<(String, NotificationSettings)>,
}

#[derive(Debug)]
pub enum ServiceProviderSettings {
    Booked4us(Booked4usSettings),
}

/// One polled service: its provider, the sinks it notifies, the seconds between
/// polls and its title.
#[derive(Debug)]
pub struct ServiceSettings {
    pub provider: ServiceProviderSettings,
    pub notifications: Vec<String>,
    pub sleep: u32,
    pub title: String,
}

#[derive(Debug)]
pub struct Booked4usSettings {
    pub url: String,
}

#[derive(Debug)]
pub enum NotificationSettings {
    Email(EmailSettings),
    Gotify(GotifySettings),
}

#[derive(Debug)]
pub struct EmailSettings {
    pub from: String,
    pub to: Vec<String>,
    pub subject: String,
    pub smtp_host: String,
    pub smtp_port: u16,
    pub smtp_user: String,
    pub smtp_password: String,
    pub smtp_starttls: bool,
}

#[derive(Debug)]
pub struct GotifySettings {
    pub url: String,
    pub application_token: String,
}

} // verus!
