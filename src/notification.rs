use vstd::prelude::*;
use std::sync::mpsc::Sender;
use crate::channel::post;
use crate::config::{Config, NotificationSettings};
use crate::error::{DeliveryError, RegistryError};

verus! {

/// A delivery target for titled messages of normal or urgent priority.
pub trait Notificator {
    fn send_normal(&self, title: &str, message: &str) -> Result<(), DeliveryError>;

    fn send_urgent(&self, title: &str, message: &str) -> Result<(), DeliveryError>;
}

/// The last position in `names` that holds `name`, if any.
pub open spec fn position_of(names: Seq<Seq<char>>, name: Seq<char>) -> Option<nat>
    decreases names.len(),
{
    if names.len() == 0 {
        None
    } else if names.last() == name {
        Some((names.len() - 1) as nat)
    } else {
        position_of(names.drop_last(), name)
    }
}

pub open spec fn names_of(v: Seq<String>) -> Seq<Seq<char>> {
    v.map_values(|s: String| s@)
}

/// A configured sink kind that can deliver messages.
pub open spec fn deliverable(s: NotificationSettings) -> bool {
    s is Gotify
}

/// The registry of named sinks. A sink is known by its position in the
/// configuration's list of sinks; a name given twice refers to its last
/// position.
#[derive(Debug)]
pub struct NotificatorCollection {
    names: Vec<String>,
}

impl View for NotificatorCollection {
    type V = Seq<Seq<char>>;

    closed spec fn view(&self) -> Seq<Seq<char>> {
        names_of(self.names@)
    }
}

/// An ordered group of sinks, each given by its position in the registry.
#[derive(Debug)]
pub struct NotificatorSubCollection {
    notificators: Vec<usize>,
}

impl View for NotificatorSubCollection {
    type V = Seq<usize>;

    closed spec fn view(&self) -> Seq<usize> {
        self.notificators@
    }
}

impl NotificatorCollection {
    fn new() -> (r: NotificatorCollection)
        ensures
            r@ == Seq::<Seq<char>>::empty(),
    {
        NotificatorCollection { names: Vec::new() }
    }

    fn add(&mut self, name: &String)
        ensures
            final(self)@ == old(self)@.push(name@),
    {
        self.names.push(name.clone());
        proof {
            assert(names_of(self.names@) =~= names_of(old(self).names@).push(name@));
        }
    }

    /// Registers every configured sink under its name, in order. A sink kind
    /// without a delivery implementation is refused, by name, the first one met.
    pub fn from(config: &Config) -> (r: Result<NotificatorCollection, RegistryError>)
        ensures
            r is Ok <==> forall|i: int|
                0 <= i < config.notifications@.len() ==> deliverable(
                    #[trigger] config.notifications@[i].1,
                ),
            r matches Ok(c) ==> c@ == config.notifications@.map_values(
                |p: (String, NotificationSettings)| p.0@,
            ),
            r matches Err(e) ==> exists|i: int|
                0 <= i < config.notifications@.len() && !deliverable(config.notifications@[i].1)
                    && (forall|j: int| 0 <= j < i ==> deliverable(#[trigger] config.notifications@[j].1))
                    && e == RegistryError::UnsupportedSink(config.notifications@[i].0),
    {
        let mut coll = NotificatorCollection::new();
        let mut i: usize = 0;
        let n = config.notifications.len();
        while i < n
            invariant
                i <= n,
                n == config.notifications@.len(),
                forall|j: int| 0 <= j < i ==> deliverable(#[trigger] config.notifications@[j].1),
                coll@ == config.notifications@.take(i as int).map_values(
                    |p: (String, NotificationSettings)| p.0@,
                ),
            decreases n - i,
        {
            let entry = &config.notifications[i];
            match &entry.1 {
                NotificationSettings::Gotify(_) => {},
                NotificationSettings::Email(_) => {
                    return Err(RegistryError::UnsupportedSink(entry.0.clone()));
                },
            }
            coll.add(&entry.0);
            proof {
                assert(config.notifications@.take(i as int + 1).map_values(
                    |p: (String, NotificationSettings)| p.0@,
                ) =~= config.notifications@.take(i as int).map_values(
                    |p: (String, NotificationSettings)| p.0@,
                ).push(entry.0@));
            }
            i += 1;
        }
        proof {
            assert(config.notifications@.take(n as int) =~= config.notifications@);
        }
        Ok(coll)
    }

    /// The registry position of `name`.
    fn lookup(&self, name: &String) -> (r: Option<usize>)
        ensures
            r matches Some(k) ==> position_of(self@, name@) == Some(k as nat),
            r is None ==> position_of(self@, name@) is None,
    {
        let mut k: usize = self.names.len();
        proof {
            assert(self@.take(k as int) =~= self@);
        }
        while k > 0
            invariant
                k <= self.names.len(),
                position_of(self@, name@) == position_of(self@.take(k as int), name@),
            decreases k,
        {
            let ghost pre = self@.take(k as int);
            proof {
                assert(pre.drop_last() =~= self@.take(k as int - 1));
            }
            if self.names[k - 1] == *name {
                return Some(k - 1);
            }
            k -= 1;
        }
        None
    }

    /// Resolves names to sinks, in the given order. The first name that is not
    /// registered is reported.
    pub fn subcollection(&self, names: &Vec<String>) -> (r: Result<NotificatorSubCollection, RegistryError>)
        ensures
            r is Ok <==> forall|i: int|
                0 <= i < names@.len() ==> position_of(self@, #[trigger] names@[i]@) is Some,
            r matches Ok(sub) ==> sub@.len() == names@.len() && forall|i: int|
                0 <= i < names@.len() ==> position_of(self@, #[trigger] names@[i]@) == Some(
                    sub@[i] as nat,
                ),
            r matches Err(e) ==> exists|i: int|
                0 <= i < names@.len() && position_of(self@, names@[i]@) is None && (forall|j: int|
                    0 <= j < i ==> position_of(self@, #[trigger] names@[j]@) is Some) && e
                    == RegistryError::UnknownSink(names@[i]),
    {
        let mut arr: Vec<usize> = Vec::new();
        let mut i: usize = 0;
        while i < names.len()
            invariant
                i <= names.len(),
                arr@.len() == i,
                forall|j: int|
                    0 <= j < i ==> position_of(self@, #[trigger] names@[j]@) == Some(arr@[j] as nat),
            decreases names.len() - i,
        {
            match self.lookup(&names[i]) {
                Some(k) => arr.push(k),
                None => {
                    return Err(RegistryError::UnknownSink(names[i].clone()));
                },
            }
            i += 1;
        }
        Ok(NotificatorSubCollection { notificators: arr })
    }
}

/// Progress of one fan-out call: the number of sinks, the position of the next
/// sink to deliver to, and whether the delivery at that position failed.
pub type FanOutView = (nat, nat, bool);

/// The position to deliver to next, if delivery goes on.
pub open spec fn fan_out_target(v: FanOutView) -> Option<nat> {
    if !v.2 && v.1 < v.0 {
        Some(v.1)
    } else {
        None
    }
}

/// Progress after the current sink accepted or refused the message.
pub open spec fn fan_out_record(v: FanOutView, delivered: bool) -> FanOutView {
    if delivered {
        (v.0, v.1 + 1, false)
    } else {
        (v.0, v.1, true)
    }
}

/// The positions delivered to, in order, and the final progress, when the sink
/// at each position `p` accepts exactly if `accepts[p]`.
pub open spec fn fan_out_run(v: FanOutView, accepts: Seq<bool>) -> (Seq<nat>, FanOutView)
    decreases (v.0 - v.1) * 2 + (if v.2 { 0int } else { 1int }),
{
    if fan_out_target(v) is Some {
        let p = v.1;
        let rest = fan_out_run(fan_out_record(v, p < accepts.len() && accepts[p as int]), accepts);
        (seq![p] + rest.0, rest.1)
    } else {
        (Seq::empty(), v)
    }
}

proof fn lemma_fan_out_from(n: nat, accepts: Seq<bool>, b: nat, k: nat)
    requires
        k <= b < accepts.len(),
        b < n,
        !accepts[b as int],
        forall|i: int| 0 <= i < b ==> accepts[i],
    ensures
        fan_out_run((n, k, false), accepts).0 == Seq::new((b + 1 - k) as nat, |i: int| (k + i) as nat),
        fan_out_run((n, k, false), accepts).1 == (n, b, true),
    decreases b - k,
{
    let v: FanOutView = (n, k, false);
    if k < b {
        lemma_fan_out_from(n, accepts, b, k + 1);
    } else {
        assert(fan_out_run(fan_out_record(v, false), accepts).0 =~= Seq::<nat>::empty());
    }
    assert(fan_out_run(v, accepts).0 =~= Seq::new((b + 1 - k) as nat, |i: int| (k + i) as nat));
}

proof fn lemma_fan_out_all(accepts: Seq<bool>, k: nat)
    requires
        k <= accepts.len(),
        forall|i: int| 0 <= i < accepts.len() ==> accepts[i],
    ensures
        fan_out_run((accepts.len(), k, false), accepts).0 == Seq::new(
            (accepts.len() - k) as nat,
            |i: int| (k + i) as nat,
        ),
        fan_out_run((accepts.len(), k, false), accepts).1 == (accepts.len(), accepts.len(), false),
    decreases accepts.len() - k,
{
    let v: FanOutView = (accepts.len(), k, false);
    if k < accepts.len() {
        lemma_fan_out_all(accepts, k + 1);
    }
    assert(fan_out_run(v, accepts).0 =~= Seq::new(
        (accepts.len() - k) as nat,
        |i: int| (k + i) as nat,
    ));
}

/// Fan-out stops at the first failure: when the sink at position `b` refuses
/// and every earlier sink accepts, exactly the positions up to and including
/// `b` receive the message, in order, and the call ends failed at `b`; no later
/// sink receives it.
pub proof fn law_fan_out_short_circuit(accepts: Seq<bool>, b: nat)
    requires
        b < accepts.len(),
        !accepts[b as int],
        forall|i: int| 0 <= i < b ==> accepts[i],
    ensures
        fan_out_run((accepts.len(), 0, false), accepts).0 == Seq::new(b + 1, |i: int| i as nat),
        fan_out_run((accepts.len(), 0, false), accepts).1 == (accepts.len(), b, true),
{
    lemma_fan_out_from(accepts.len(), accepts, b, 0);
    assert(Seq::new((b + 1 - 0) as nat, |i: int| (0 + i) as nat) =~= Seq::new(b + 1, |i: int| i as nat));
}

/// The progress of one fan-out call over a subscription's sinks.
#[derive(Debug)]
pub struct FanOut {
    total: usize,
    next: usize,
    failed: bool,
}

impl View for FanOut {
    type V = FanOutView;

    closed spec fn view(&self) -> FanOutView {
        (self.total as nat, self.next as nat, self.failed)
    }
}

impl FanOut {
    pub fn new(total: usize) -> (r: FanOut)
        ensures
            r@ == (total as nat, 0nat, false),
    {
        FanOut { total, next: 0, failed: false }
    }

    /// The position of the sink to deliver to next, or none once every sink
    /// accepted or one refused.
    pub fn target(&self) -> (r: Option<usize>)
        ensures
            r matches Some(p) ==> fan_out_target(self@) == Some(p as nat),
            r is None ==> fan_out_target(self@) is None,
    {
        if !self.failed && self.next < self.total {
            Some(self.next)
        } else {
            None
        }
    }

    /// Records whether the sink at the current position accepted.
    pub fn record(&mut self, delivered: bool)
        requires
            fan_out_target(old(self)@) is Some,
        ensures
            final(self)@ == fan_out_record(old(self)@, delivered),
    {
        if delivered {
            self.next = self.next + 1;
        } else {
            self.failed = true;
        }
    }

    /// The position whose sink refused, if one did.
    pub fn failed_at(&self) -> (r: Option<usize>)
        ensures
            r matches Some(p) ==> self@.2 && p == self@.1,
            r is None ==> !self@.2,
    {
        if self.failed {
            Some(self.next)
        } else {
            None
        }
    }
}

impl NotificatorSubCollection {
    /// Every position refers to one of `n` sinks.
    pub open spec fn valid_for(&self, n: nat) -> bool {
        forall|i: int| 0 <= i < self@.len() ==> #[trigger] self@[i] < n
    }

    /// Whether every position refers to one of `n` sinks.
    pub fn fits(&self, n: usize) -> (r: bool)
        ensures
            r == self.valid_for(n as nat),
    {
        let mut i: usize = 0;
        while i < self.notificators.len()
            invariant
                i <= self.notificators.len(),
                forall|j: int| 0 <= j < i ==> #[trigger] self@[j] < n,
            decreases self.notificators.len() - i,
        {
            if self.notificators[i] >= n {
                proof {
                    assert(!(self@[i as int] < n));
                }
                return false;
            }
            i += 1;
        }
        true
    }

    /// Delivers a normal-priority message to each sink in order, stopping at
    /// the first failure, which is returned as the sink gave it. The second
    /// part records each call made and its outcome, in call order.
    pub fn send_normal<N: Notificator>(&self, sinks: &Vec<N>, title: &str, message: &str) -> (r: (
        Result<(), DeliveryError>,
        Ghost<(Seq<Call>, Outcomes)>,
    ))
        requires
            self.valid_for(sinks@.len()),
        ensures
            fan_out_reported(self@.len(), r.0, r.1@.1),
            calls_as_prescribed(self@, false, title@, message@, r.1@.0, r.1@.1.len()),
    {
        self.fan_out(sinks, title, message, false)
    }

    /// Delivers an urgent message to each sink in order, stopping at the first
    /// failure, which is returned as the sink gave it. The second part records
    /// each call made and its outcome, in call order.
    pub fn send_urgent<N: Notificator>(&self, sinks: &Vec<N>, title: &str, message: &str) -> (r: (
        Result<(), DeliveryError>,
        Ghost<(Seq<Call>, Outcomes)>,
    ))
        requires
            self.valid_for(sinks@.len()),
        ensures
            fan_out_reported(self@.len(), r.0, r.1@.1),
            calls_as_prescribed(self@, true, title@, message@, r.1@.0, r.1@.1.len()),
    {
        self.fan_out(sinks, title, message, true)
    }

    fn fan_out<N: Notificator>(&self, sinks: &Vec<N>, title: &str, message: &str, urgent: bool) -> (r: (
        Result<(), DeliveryError>,
        Ghost<(Seq<Call>, Outcomes)>,
    ))
        requires
            self.valid_for(sinks@.len()),
        ensures
            fan_out_reported(self@.len(), r.0, r.1@.1),
            calls_as_prescribed(self@, urgent, title@, message@, r.1@.0, r.1@.1.len()),
    {
        let ghost n = self@.len();
        let ghost mut outs: Outcomes = Seq::empty();
        let ghost mut calls: Seq<Call> = Seq::empty();
        let mut progress = FanOut::new(self.notificators.len());
        loop
            invariant
                n == self@.len(),
                progress@ == (n, outs.len(), false),
                outs.len() <= n,
                forall|i: int| 0 <= i < outs.len() ==> #[trigger] outs[i] is Ok,
                calls_as_prescribed(self@, urgent, title@, message@, calls, outs.len()),
                self.valid_for(sinks@.len()),
            decreases progress@.0 - progress@.1,
        {
            match progress.target() {
                None => {
                    proof {
                        let acc = accepted(outs);
                        lemma_fan_out_all(acc, 0);
                        assert(Seq::new((acc.len() - 0) as nat, |i: int| (0 + i) as nat) =~= Seq::new(
                            outs.len(),
                            |i: int| i as nat,
                        ));
                    }
                    return (Ok(()), Ghost((calls, outs)));
                },
                Some(p) => {
                    let k = self.notificators[p];
                    let sink = &sinks[k];
                    let res = if urgent {
                        proof {
                            calls = calls.push((k, true, title@, message@));
                        }
                        sink.send_urgent(title, message)
                    } else {
                        proof {
                            calls = calls.push((k, false, title@, message@));
                        }
                        sink.send_normal(title, message)
                    };
                    let ghost got = res;
                    progress.record(res.is_ok());
                    proof {
                        outs = outs.push(got);
                    }
                    match res {
                        Ok(()) => {},
                        Err(e) => {
                            proof {
                                let acc = accepted(outs);
                                assert(got == Err::<(), DeliveryError>(e));
                                assert(outs.last() == got);
                                assert(!acc[p as int]);
                                assert forall|i: int| 0 <= i < p implies acc[i] by {
                                    assert(outs[i] is Ok);
                                }
                                lemma_fan_out_from(n, acc, p as nat, 0);
                                assert(Seq::new((p + 1 - 0) as nat, |i: int| (0 + i) as nat) =~= Seq::new(
                                    outs.len(),
                                    |i: int| i as nat,
                                ));
                            }
                            return (Err(e), Ghost((calls, outs)));
                        },
                    }
                },
            }
        }
    }
}

/// The outcome of each delivery of one fan-out call, in call order.
pub type Outcomes = Seq<Result<(), DeliveryError>>;

/// One delivery: the position of the sink in the registry, whether its urgent
/// (rather than its normal) method was called, and the title and message it
/// was handed.
pub type Call = (usize, bool, Seq<char>, Seq<char>);

/// The first `made` positions of the subscription were called, in order, each
/// through the method `urgent` selects and with this title and message.
pub open spec fn calls_as_prescribed(
    positions: Seq<usize>,
    urgent: bool,
    title: Seq<char>,
    message: Seq<char>,
    calls: Seq<Call>,
    made: nat,
) -> bool {
    &&& calls.len() == made
    &&& made <= positions.len()
    &&& forall|i: int| 0 <= i < made ==> #[trigger] calls[i] == (positions[i], urgent, title, message)
}

/// Which deliveries were accepted.
pub open spec fn accepted(outs: Outcomes) -> Seq<bool> {
    outs.map_values(|o: Result<(), DeliveryError>| o is Ok)
}

/// What a fan-out over `n` sinks reports: one delivery per position from the
/// first, as `fan_out_run` prescribes for these outcomes; success exactly when
/// every sink accepted; otherwise the last delivery failed, every earlier one
/// was accepted, and its error is the one returned.
pub open spec fn fan_out_reported(n: nat, r: Result<(), DeliveryError>, outs: Outcomes) -> bool {
    &&& outs.len() <= n
    &&& fan_out_run((n, 0, false), accepted(outs)).0 == Seq::new(outs.len(), |i: int| i as nat)
    &&& n == 0 ==> r is Ok
    &&& (r is Ok <==> (outs.len() == n && forall|i: int| 0 <= i < outs.len() ==> #[trigger] outs[i] is Ok))
    &&& r is Err ==> (outs.len() > 0 && r == outs.last() && forall|i: int|
        0 <= i < outs.len() - 1 ==> #[trigger] outs[i] is Ok)
}

/// The title under which operational messages are delivered.
pub const ADMIN_TITLE: &'static str = "COVID Vaccination Poll - Admin";

/// The line queued for the admin channel: the title, a colon, a space and the
/// message.
pub open spec fn admin_line(title: Seq<char>, message: Seq<char>) -> Seq<char> {
    title + ": "@ + message
}

pub fn admin_line_text(title: &str, message: &str) -> (r: String)
    ensures
        r@ == admin_line(title@, message@),
{
    let mut text = String::from_str(title);
    text.append(": ");
    text.append(message);
    text
}

/// A handle through which any thread queues messages for the admin channel.
#[derive(Debug, Clone)]
pub struct AdminNotificationsSender {
    msg_tx: Sender<String>,
}

impl AdminNotificationsSender {
    pub fn new(msg_tx: Sender<String>) -> (r: AdminNotificationsSender) {
        AdminNotificationsSender { msg_tx }
    }

    /// Queues `admin_line(title, message)`. Once the admin channel has stopped
    /// the message is dropped.
    pub fn send(&self, title: &str, message: &str) {
        let msg = admin_line_text(title, message);
        let _ = post(&self.msg_tx, msg);
    }
}

/// A handle that asks the admin channel to stop.
#[derive(Debug)]
pub struct AdminNotificationsKiller {
    kill_tx: Sender<bool>,
}

impl AdminNotificationsKiller {
    pub fn new(kill_tx: Sender<bool>) -> (r: AdminNotificationsKiller) {
        AdminNotificationsKiller { kill_tx }
    }

    /// Signals the admin channel to stop; a channel that has already stopped
    /// ignores it.
    pub fn kill(&self) {
        let _ = post(&self.kill_tx, true);
    }
}

/// The decisions of the admin channel, one tick at a time. Each tick the caller
/// takes at most one queued message and looks for a stop signal; the message
/// is forwarded, and a pending signal stops the channel at the end of that
/// tick.
#[derive(Debug)]
pub struct AdminChannel {
    stopped: bool,
}

impl AdminChannel {
    pub closed spec fn stopped(&self) -> bool {
        self.stopped
    }

    pub fn new() -> (r: AdminChannel)
        ensures
            !r.stopped(),
    {
        AdminChannel { stopped: false }
    }

    pub fn is_stopped(&self) -> (r: bool)
        ensures
            r == self.stopped(),
    {
        self.stopped
    }

    /// Takes what one tick found: the message taken from the queue, if any,
    /// and whether a stop signal was pending. Returns the message to forward.
    pub fn on_tick(&mut self, queued: Option<String>, kill: bool) -> (forward: Option<String>)
        requires
            !old(self).stopped(),
        ensures
            forward == queued,
            final(self).stopped() == kill,
    {
        self.stopped = kill;
        queued
    }
}

} // verus!
