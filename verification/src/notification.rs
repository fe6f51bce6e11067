//! What a Netdata webhook becomes: the notification that is published to an
//! ntfy topic.

use vstd::prelude::*;
use crate::netdata::{
    reachability_status_name, NetdataAlertStatus, NetdataReachabilityStatus, NetdataPayload, NetdataReachabilityPayload,
    NetdataReachabilitySeverity,
};
use crate::url_check::{outcome_of, parse_url, url_parse_outcome, UrlOutcome, UrlParts};

verus! {

/// An ntfy message priority, from most to least urgent.
#[derive(Clone, Copy, Debug, PartialEq, Eq, Structural)]
pub enum Priority {
    Max,
    High,
    Default,
    Low,
    Min,
}

/// The number that ntfy gives a priority: 5 for the most urgent, 1 for the
/// least.
pub open spec fn priority_level(p: Priority) -> int {
    match p {
        Priority::Max => 5,
        Priority::High => 4,
        Priority::Default => 3,
        Priority::Low => 2,
        Priority::Min => 1,
    }
}

/// A notification to publish to ntfy.
#[derive(Clone, Debug)]
pub struct Notification {
    pub topic: String,
    pub message: Option<String>,
    pub title: Option<String>,
    pub tags: Option<Vec<String>>,
    pub priority: Option<Priority>,
    /// The page to open when the notification is clicked.
    pub click: Option<String>,
}

/// The mathematical model of a [`Notification`].
pub struct NotificationView {
    pub topic: Seq<char>,
    pub message: Option<Seq<char>>,
    pub title: Option<Seq<char>>,
    pub tags: Option<Seq<Seq<char>>>,
    pub priority: Option<Priority>,
    pub click: Option<Seq<char>>,
}

impl View for Notification {
    type V = NotificationView;

    open spec fn view(&self) -> NotificationView {
        NotificationView {
            topic: self.topic@,
            message: self.message.deep_view(),
            title: self.title.deep_view(),
            tags: self.tags.deep_view(),
            priority: self.priority,
            click: self.click.deep_view(),
        }
    }
}

/// The priority of an alert's notification.
pub open spec fn alert_priority(s: NetdataAlertStatus) -> Priority {
    match s {
        NetdataAlertStatus::Critical => Priority::Max,
        NetdataAlertStatus::Warning => Priority::High,
        NetdataAlertStatus::Clear => Priority::Default,
    }
}

/// The priority of a reachability notification.
pub open spec fn reachability_priority(s: NetdataReachabilitySeverity) -> Priority {
    match s {
        NetdataReachabilitySeverity::Critical => Priority::Max,
        NetdataReachabilitySeverity::Info => Priority::Default,
    }
}

/// The page a notification opens: the link as the URL parser serialises it,
/// where the link parses; none otherwise.
pub open spec fn click_target(link: UrlOutcome) -> Option<Seq<char>> {
    match link {
        Ok((_, _, serialization)) => Some(serialization),
        Err(_) => None,
    }
}

/// The host that a reachability notification is about: the first node's
/// hostname, or `Unknown` where no node is named.
pub open spec fn reachability_host(r: NetdataReachabilityPayload) -> Seq<char> {
    if r.nodes@.len() > 0 {
        r.nodes@[0].hostname@
    } else {
        "Unknown"@
    }
}

/// The link that a payload carries: the Netdata Cloud page of the alert or
/// of the node; a token payload carries none.
pub open spec fn payload_link(p: NetdataPayload) -> Seq<char> {
    match p {
        NetdataPayload::Token(_) => Seq::empty(),
        NetdataPayload::Alert(a) => a.alert.url@,
        NetdataPayload::Reachability(r) => r.url@,
    }
}

/// The notification for a Netdata payload, published to `topic`, given what
/// the URL parser made of the payload's link.
pub open spec fn notification_spec(topic: Seq<char>, p: NetdataPayload, link: UrlOutcome) -> NotificationView {
    match p {
        NetdataPayload::Token(t) => NotificationView {
            topic: topic,
            message: Some(t.message@ + "\n\nToken: "@ + t.token@),
            title: Some(t.title@),
            tags: None,
            priority: None,
            click: None,
        },
        NetdataPayload::Alert(a) => NotificationView {
            topic: topic,
            message: Some(a.message@),
            title: Some(a.alert.rendered.info@),
            tags: Some(seq![a.alert.config.classification@]),
            priority: Some(alert_priority(a.alert.state.status)),
            click: click_target(link),
        },
        NetdataPayload::Reachability(r) => NotificationView {
            topic: topic,
            message: Some(r.message@),
            title: Some("Reachability: "@ + reachability_host(r)),
            tags: Some(seq![reachability_status_name(r.status)]),
            priority: Some(reachability_priority(r.severity)),
            click: click_target(link),
        },
    }
}

fn alert_priority_of(s: NetdataAlertStatus) -> (p: Priority)
    ensures
        p == alert_priority(s),
{
    match s {
        NetdataAlertStatus::Critical => Priority::Max,
        NetdataAlertStatus::Warning => Priority::High,
        NetdataAlertStatus::Clear => Priority::Default,
    }
}

fn reachability_priority_of(s: NetdataReachabilitySeverity) -> (p: Priority)
    ensures
        p == reachability_priority(s),
{
    match s {
        NetdataReachabilitySeverity::Critical => Priority::Max,
        NetdataReachabilitySeverity::Info => Priority::Default,
    }
}

fn click_target_of(link: Result<UrlParts, String>) -> (c: Option<String>)
    ensures
        c.deep_view() == click_target(outcome_of(link)),
{
    match link {
        Ok(parts) => Some(parts.serialization),
        Err(_) => None,
    }
}

fn single_tag(tag: String) -> (v: Vec<String>)
    ensures
        v.deep_view() == seq![tag@],
{
    let v = vec![tag];
    assert(v.deep_view() =~= seq![v@[0]@]);
    v
}

/// Builds the notification for a Netdata payload, published to `topic`,
/// from what the URL parser made of the payload's link.
pub fn compose_notification(topic: &str, payload: &NetdataPayload, link: Result<UrlParts, String>) -> (n: Notification)
    ensures
        n@ == notification_spec(topic@, *payload, outcome_of(link)),
{
    match payload {
        NetdataPayload::Token(token) => {
            let message = token.message.clone().concat("\n\nToken: ").concat(token.token.as_str());
            Notification {
                topic: String::from_str(topic),
                message: Some(message),
                title: Some(token.title.clone()),
                tags: None,
                priority: None,
                click: None,
            }
        },
        NetdataPayload::Alert(alert) => {
            Notification {
                topic: String::from_str(topic),
                message: Some(alert.message.clone()),
                title: Some(alert.alert.rendered.info.clone()),
                tags: Some(single_tag(alert.alert.config.classification.clone())),
                priority: Some(alert_priority_of(alert.alert.state.status)),
                click: click_target_of(link),
            }
        },
        NetdataPayload::Reachability(reach) => {
            let host: &str = if reach.nodes.len() > 0 {
                reach.nodes[0].hostname.as_str()
            } else {
                "Unknown"
            };
            Notification {
                topic: String::from_str(topic),
                message: Some(reach.message.clone()),
                title: Some(String::from_str("Reachability: ").concat(host)),
                tags: Some(single_tag(String::from_str(reach.status.as_str()))),
                priority: Some(reachability_priority_of(reach.severity)),
                click: click_target_of(link),
            }
        },
    }
}

/// Builds the notification for a Netdata payload, published to `topic`.
/// Alerts and reachability changes link to their Netdata Cloud page where
/// that link is a URL.
pub fn netdata_notification(topic: &str, payload: &NetdataPayload) -> (n: Notification)
    ensures
        n@ == notification_spec(topic@, *payload, url_parse_outcome(payload_link(*payload))),
{
    let link = match payload {
        NetdataPayload::Token(_) => Err(String::new()),
        NetdataPayload::Alert(alert) => parse_url(alert.alert.url.as_str()),
        NetdataPayload::Reachability(reach) => parse_url(reach.url.as_str()),
    };
    compose_notification(topic, payload, link)
}

/// What each payload is published as, field by field:
/// - a token payload: its message, a blank line and `Token: ` with the
///   token, under its title, with no tags, priority or link;
/// - an alert: the payload's own message, titled with the alert's rendered
///   info, tagged with the alert's classification, at priority max, high or
///   default for a critical, warning or clear alert;
/// - a reachability change: the payload's message, titled `Reachability: `
///   and the first node's hostname (`Unknown` without nodes), tagged
///   `reachable` or `unreachable`, at priority max or default for a critical
///   or info severity.
/// Alerts and reachability changes open the parsed link where it parses, and
/// nothing otherwise.
pub proof fn lemma_notification_fields(topic: Seq<char>, p: NetdataPayload, link: UrlOutcome)
    ensures
        ({
            let n = notification_spec(topic, p, link);
            &&& n.topic == topic
            &&& p matches NetdataPayload::Token(t) ==> {
                &&& n.message == Some(t.message@ + "\n\nToken: "@ + t.token@)
                &&& n.title == Some(t.title@)
                &&& n.tags is None
                &&& n.priority is None
                &&& n.click is None
            }
            &&& p matches NetdataPayload::Alert(a) ==> {
                &&& n.message == Some(a.message@)
                &&& n.title == Some(a.alert.rendered.info@)
                &&& n.tags == Some(seq![a.alert.config.classification@])
                &&& (a.alert.state.status == NetdataAlertStatus::Critical ==> n.priority == Some(Priority::Max))
                &&& (a.alert.state.status == NetdataAlertStatus::Warning ==> n.priority == Some(Priority::High))
                &&& (a.alert.state.status == NetdataAlertStatus::Clear ==> n.priority == Some(Priority::Default))
            }
            &&& p matches NetdataPayload::Reachability(r) ==> {
                &&& n.message == Some(r.message@)
                &&& (r.nodes@.len() > 0 ==> n.title == Some("Reachability: "@ + r.nodes@[0].hostname@))
                &&& (r.nodes@.len() == 0 ==> n.title == Some("Reachability: "@ + "Unknown"@))
                &&& (r.status == NetdataReachabilityStatus::Reachable ==> n.tags == Some(seq!["reachable"@]))
                &&& (r.status == NetdataReachabilityStatus::Unreachable ==> n.tags == Some(seq!["unreachable"@]))
                &&& (r.severity == NetdataReachabilitySeverity::Critical ==> n.priority == Some(Priority::Max))
                &&& (r.severity == NetdataReachabilitySeverity::Info ==> n.priority == Some(Priority::Default))
            }
            &&& !(p is Token) ==> {
                &&& (link is Ok ==> n.click == Some(link->Ok_0.2))
                &&& (link is Err ==> n.click is None)
            }
        }),
{
}

/// Every notification goes to the topic it was built for, and the payloads
/// that report something critical (a critical alert, a critical
/// reachability change) and only those get ntfy's highest priority.
pub proof fn lemma_notification_topic_and_urgency(topic: Seq<char>, p: NetdataPayload, link: UrlOutcome)
    ensures
        notification_spec(topic, p, link).topic == topic,
        p matches NetdataPayload::Alert(a) ==> (priority_level(notification_spec(topic, p, link).priority->Some_0) == 5
            <==> a.alert.state.status == NetdataAlertStatus::Critical),
        p matches NetdataPayload::Reachability(r) ==> (priority_level(notification_spec(topic, p, link).priority->Some_0) == 5
            <==> r.severity == NetdataReachabilitySeverity::Critical),
{
}

} // verus!
