use std::cell::RefCell;
use std::sync::mpsc;
use vaccination_poll::config::{
    Booked4usSettings, Config, EmailSettings, GotifySettings, NotificationSettings,
};
use vaccination_poll::error::{DeliveryError, GenericError, ParseError, RegistryError};
use vaccination_poll::notification::{
    admin_line_text, AdminChannel, AdminNotificationsKiller, AdminNotificationsSender, FanOut, Notificator,
    NotificatorCollection,
};

struct Recorder {
    fails: bool,
    got: RefCell<Vec<(String, String, bool)>>,
}

impl Recorder {
    fn new(fails: bool) -> Recorder {
        Recorder { fails, got: RefCell::new(Vec::new()) }
    }

    fn deliver(&self, title: &str, message: &str, urgent: bool) -> Result<(), DeliveryError> {
        if self.fails {
            return Err(DeliveryError::Rejected(String::from("refused")));
        }
        self.got.borrow_mut().push((title.to_string(), message.to_string(), urgent));
        Ok(())
    }
}

impl Notificator for Recorder {
    fn send_normal(&self, title: &str, message: &str) -> Result<(), DeliveryError> {
        self.deliver(title, message, false)
    }

    fn send_urgent(&self, title: &str, message: &str) -> Result<(), DeliveryError> {
        self.deliver(title, message, true)
    }
}

struct Poisoned;

impl Notificator for Poisoned {
    fn send_normal(&self, _: &str, _: &str) -> Result<(), DeliveryError> {
        Err(DeliveryError::LockAcquisition(String::from("poisoned")))
    }

    fn send_urgent(&self, _: &str, _: &str) -> Result<(), DeliveryError> {
        Err(DeliveryError::LockAcquisition(String::from("poisoned")))
    }
}

fn gotify(name: &str) -> (String, NotificationSettings) {
    (
        name.to_string(),
        NotificationSettings::Gotify(GotifySettings {
            url: String::from("https://push.example.org"),
            application_token: String::from("t"),
        }),
    )
}

fn config(notifications: Vec<(String, NotificationSettings)>) -> Config {
    Config { admin_notifications: vec![], services: vec![], notifications }
}

#[test]
fn fan_out_stops_at_first_failure() {
    let cfg = config(vec![gotify("a"), gotify("b"), gotify("c")]);
    let coll = NotificatorCollection::from(&cfg).unwrap();
    let sub = coll
        .subcollection(&vec![String::from("a"), String::from("b"), String::from("c")])
        .unwrap();
    let sinks = vec![Recorder::new(false), Recorder::new(true), Recorder::new(false)];
    let (r, _) = sub.send_urgent(&sinks, "T", "M");
    assert!(matches!(r, Err(DeliveryError::Rejected(ref s)) if s == "refused"));
    assert_eq!(sinks[0].got.borrow().clone(), vec![(String::from("T"), String::from("M"), true)]);
    assert!(sinks[1].got.borrow().is_empty());
    assert!(sinks[2].got.borrow().is_empty());
}

#[test]
fn fan_out_reaches_all_in_subscription_order() {
    let cfg = config(vec![gotify("a"), gotify("b")]);
    let coll = NotificatorCollection::from(&cfg).unwrap();
    let sub = coll.subcollection(&vec![String::from("b"), String::from("a")]).unwrap();
    let sinks = vec![Recorder::new(false), Recorder::new(false)];
    assert!(sub.send_normal(&sinks, "T", "M").0.is_ok());
    assert_eq!(sinks[0].got.borrow().len(), 1);
    assert_eq!(sinks[1].got.borrow().clone(), vec![(String::from("T"), String::from("M"), false)]);
}

#[test]
fn fan_out_machine_short_circuits() {
    let mut f = FanOut::new(3);
    assert_eq!(f.target(), Some(0));
    f.record(true);
    assert_eq!(f.target(), Some(1));
    f.record(false);
    assert_eq!(f.target(), None);
    assert_eq!(f.failed_at(), Some(1));
    let mut g = FanOut::new(1);
    g.record(true);
    assert_eq!(g.target(), None);
    assert_eq!(g.failed_at(), None);
}

#[test]
fn email_sink_is_refused() {
    let email = NotificationSettings::Email(EmailSettings {
        from: String::from("a@b"),
        to: vec![String::from("c@d")],
        subject: String::from("s"),
        smtp_host: String::from("h"),
        smtp_port: 25,
        smtp_user: String::from("u"),
        smtp_password: String::from("p"),
        smtp_starttls: true,
    });
    let cfg = config(vec![gotify("push"), (String::from("mail"), email)]);
    let r = NotificatorCollection::from(&cfg);
    assert!(matches!(r, Err(RegistryError::UnsupportedSink(ref n)) if n == "mail"));
}

#[test]
fn unknown_subscription_is_refused() {
    let cfg = config(vec![gotify("a")]);
    let coll = NotificatorCollection::from(&cfg).unwrap();
    let r = coll.subcollection(&vec![String::from("a"), String::from("x"), String::from("y")]);
    assert!(matches!(r, Err(RegistryError::UnknownSink(ref n)) if n == "x"));
    assert!(coll.subcollection(&vec![]).is_ok());
}

#[test]
fn admin_sender_queues_title_and_message() {
    let (tx, rx) = mpsc::channel();
    let sender = AdminNotificationsSender::new(tx);
    sender.send("App", "started");
    assert_eq!(rx.try_recv().unwrap(), "App: started");
    assert!(rx.try_recv().is_err());
    assert_eq!(admin_line_text("a", ""), "a: ");
}

#[test]
fn admin_send_after_channel_stopped_is_harmless() {
    let (tx, rx) = mpsc::channel::<String>();
    drop(rx);
    AdminNotificationsSender::new(tx).send("App", "late");
}

#[test]
fn admin_killer_signals_once_per_call() {
    let (tx, rx) = mpsc::channel();
    let killer = AdminNotificationsKiller::new(tx);
    killer.kill();
    assert_eq!(rx.try_recv(), Ok(true));
    assert!(rx.try_recv().is_err());
    drop(rx);
    killer.kill();
}

#[test]
fn unused_settings_type_builds() {
    let s = Booked4usSettings { url: String::from("u") };
    assert_eq!(s.url, "u");
}

#[test]
fn empty_subscription_succeeds() {
    let cfg = config(vec![gotify("a")]);
    let coll = NotificatorCollection::from(&cfg).unwrap();
    let sub = coll.subcollection(&vec![]).unwrap();
    let sinks = vec![Recorder::new(true)];
    assert!(sub.send_normal(&sinks, "T", "M").0.is_ok());
    assert!(sinks[0].got.borrow().is_empty());
}

#[test]
fn lock_failure_is_returned_and_stops_fan_out() {
    let cfg = config(vec![gotify("a"), gotify("b")]);
    let coll = NotificatorCollection::from(&cfg).unwrap();
    let sub = coll.subcollection(&vec![String::from("a"), String::from("b")]).unwrap();
    let sinks = vec![Poisoned, Poisoned];
    let (r, _) = sub.send_normal(&sinks, "T", "M");
    assert!(matches!(r, Err(DeliveryError::LockAcquisition(ref s)) if s == "poisoned"));
}

#[test]
fn admin_channel_stops_in_the_tick_of_the_signal() {
    let mut ch = AdminChannel::new();
    assert_eq!(ch.on_tick(Some(String::from("App: Terminated")), true), Some(String::from("App: Terminated")));
    assert!(ch.is_stopped());
}

#[test]
fn admin_channel_runs_until_signal() {
    let mut ch = AdminChannel::new();
    assert_eq!(ch.on_tick(None, false), None);
    assert!(!ch.is_stopped());
    assert_eq!(ch.on_tick(None, true), None);
    assert!(ch.is_stopped());
}

#[test]
fn error_texts() {
    assert_eq!(ParseError::new("bad").to_text(), "Config parsing error: bad");
    assert_eq!(GenericError::new("x").to_text(), "Config parsing error: x");
    assert_eq!(GenericError::new("x").message(), "x");
}
