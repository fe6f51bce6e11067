//! The webhook payloads that Netdata sends: alerts, reachability changes and
//! the test notification that carries a verification token.

use vstd::prelude::*;
use crate::text::{ascii_lower_code, eq_ignore_ascii_case, eq_ignore_ascii_case_spec};

verus! {

/// A Netdata node, as a webhook names it.
#[derive(Clone, Debug)]
pub struct NetdataNode {
    /// Example: "la1.node.garland.slvn.co"
    pub hostname: String,
}

/// The test notification, which carries the token that Netdata asks for to
/// verify the webhook.
#[derive(Clone, Debug)]
pub struct NetdataTokenPayload {
    pub message: String,
    pub title: String,
    pub token: String,
}

/// The Netdata space that a node belongs to.
#[derive(Clone, Debug)]
pub struct NetdataSpace {
    /// Example: "Slvn.co"
    pub name: String,
}

/// The state an alert moved to.
#[derive(Clone, Copy, Debug, PartialEq, Eq, Structural)]
pub enum NetdataAlertStatus {
    Critical,
    Warning,
    Clear,
}

#[derive(Clone, Debug)]
pub struct NetdataAlertState {
    /// Example: "Critical"
    pub status: NetdataAlertStatus,
}

#[derive(Clone, Debug)]
pub struct NetdataAlertRendered {
    /// Example: "Swap memory utilization"
    pub info: String,
}

#[derive(Clone, Debug)]
pub struct NetdataAlertConfig {
    /// Example: "Utilization"
    pub classification: String,
}

#[derive(Clone, Debug)]
pub struct NetdataAlert {
    /// Example: "used_swap"
    pub name: String,
    pub state: NetdataAlertState,
    pub rendered: NetdataAlertRendered,
    /// Example: "https://app.netdata.cloud/..."
    pub url: String,
    pub config: NetdataAlertConfig,
}

/// An alert notification.
#[derive(Clone, Debug)]
pub struct NetdataAlertPayload {
    /// Example: "Raised to Critical, System swap memory utilization = 100%, on la1.node.garland.slvn.co"
    pub message: String,
    pub space: NetdataSpace,
    pub node: NetdataNode,
    pub alert: NetdataAlert,
}

/// Whether a node can be reached.
#[derive(Clone, Copy, Debug, PartialEq, Eq, Structural)]
pub enum NetdataReachabilityStatus {
    Reachable,
    Unreachable,
}

/// How severe a reachability notification is.
#[derive(Clone, Copy, Debug, PartialEq, Eq, Structural)]
pub enum NetdataReachabilitySeverity {
    Info,
    Critical,
}

/// A reachability notification.
#[derive(Clone, Debug)]
pub struct NetdataReachabilityPayload {
    /// Example: "Slvn.co/sa1.node.garland.slvn.co is unreachable"
    pub message: String,
    /// Example: "https://app.netdata.cloud/..."
    pub url: String,
    /// Example: "critical"
    pub severity: NetdataReachabilitySeverity,
    /// Example: "unreachable"
    pub status: NetdataReachabilityStatus,
    pub nodes: Vec<NetdataNode>,
}

/// Any webhook payload that Netdata sends. A JSON body is read as the first
/// of these that it fits, in this order.
#[derive(Clone, Debug)]
pub enum NetdataPayload {
    Token(NetdataTokenPayload),
    Alert(NetdataAlertPayload),
    Reachability(NetdataReachabilityPayload),
}

/// A status or severity text that names none of the variants.
#[derive(Clone, Copy, Debug, PartialEq, Eq, Structural)]
pub enum VariantNotFound {
    VariantNotFound,
}

/// The alert status that a text names, letter case aside.
pub open spec fn alert_status_named(s: Seq<char>) -> Option<NetdataAlertStatus> {
    if eq_ignore_ascii_case_spec(s, "Critical"@) {
        Some(NetdataAlertStatus::Critical)
    } else if eq_ignore_ascii_case_spec(s, "Warning"@) {
        Some(NetdataAlertStatus::Warning)
    } else if eq_ignore_ascii_case_spec(s, "Clear"@) {
        Some(NetdataAlertStatus::Clear)
    } else {
        None
    }
}

/// The name of a reachability status, in lower case.
pub open spec fn reachability_status_name(s: NetdataReachabilityStatus) -> Seq<char> {
    match s {
        NetdataReachabilityStatus::Reachable => "reachable"@,
        NetdataReachabilityStatus::Unreachable => "unreachable"@,
    }
}

/// The reachability status that a text names, letter case aside.
pub open spec fn reachability_status_named(s: Seq<char>) -> Option<NetdataReachabilityStatus> {
    if eq_ignore_ascii_case_spec(s, "reachable"@) {
        Some(NetdataReachabilityStatus::Reachable)
    } else if eq_ignore_ascii_case_spec(s, "unreachable"@) {
        Some(NetdataReachabilityStatus::Unreachable)
    } else {
        None
    }
}

/// The name of a reachability severity, in lower case.
pub open spec fn reachability_severity_name(s: NetdataReachabilitySeverity) -> Seq<char> {
    match s {
        NetdataReachabilitySeverity::Info => "info"@,
        NetdataReachabilitySeverity::Critical => "critical"@,
    }
}

/// The reachability severity that a text names, letter case aside.
pub open spec fn reachability_severity_named(s: Seq<char>) -> Option<NetdataReachabilitySeverity> {
    if eq_ignore_ascii_case_spec(s, "info"@) {
        Some(NetdataReachabilitySeverity::Info)
    } else if eq_ignore_ascii_case_spec(s, "critical"@) {
        Some(NetdataReachabilitySeverity::Critical)
    } else {
        None
    }
}

pub open spec fn named_or_not_found<T>(o: Option<T>) -> Result<T, VariantNotFound> {
    match o {
        Some(v) => Ok(v),
        None => Err(VariantNotFound::VariantNotFound),
    }
}

impl NetdataAlertStatus {
    /// Reads an alert status, ASCII letters in any case.
    pub fn parse(s: &str) -> (r: Result<NetdataAlertStatus, VariantNotFound>)
        ensures
            r == named_or_not_found(alert_status_named(s@)),
    {
        if eq_ignore_ascii_case(s, "Critical") {
            Ok(NetdataAlertStatus::Critical)
        } else if eq_ignore_ascii_case(s, "Warning") {
            Ok(NetdataAlertStatus::Warning)
        } else if eq_ignore_ascii_case(s, "Clear") {
            Ok(NetdataAlertStatus::Clear)
        } else {
            Err(VariantNotFound::VariantNotFound)
        }
    }
}

impl NetdataReachabilityStatus {
    /// Reads a reachability status, ASCII letters in any case.
    pub fn parse(s: &str) -> (r: Result<NetdataReachabilityStatus, VariantNotFound>)
        ensures
            r == named_or_not_found(reachability_status_named(s@)),
    {
        if eq_ignore_ascii_case(s, "reachable") {
            Ok(NetdataReachabilityStatus::Reachable)
        } else if eq_ignore_ascii_case(s, "unreachable") {
            Ok(NetdataReachabilityStatus::Unreachable)
        } else {
            Err(VariantNotFound::VariantNotFound)
        }
    }

    /// The status's name in lower case, as it is shown.
    pub fn as_str(&self) -> (r: &'static str)
        ensures
            r@ == reachability_status_name(*self),
    {
        match self {
            NetdataReachabilityStatus::Reachable => "reachable",
            NetdataReachabilityStatus::Unreachable => "unreachable",
        }
    }
}

impl NetdataReachabilitySeverity {
    /// Reads a reachability severity, ASCII letters in any case.
    pub fn parse(s: &str) -> (r: Result<NetdataReachabilitySeverity, VariantNotFound>)
        ensures
            r == named_or_not_found(reachability_severity_named(s@)),
    {
        if eq_ignore_ascii_case(s, "info") {
            Ok(NetdataReachabilitySeverity::Info)
        } else if eq_ignore_ascii_case(s, "critical") {
            Ok(NetdataReachabilitySeverity::Critical)
        } else {
            Err(VariantNotFound::VariantNotFound)
        }
    }

    /// The severity's name in lower case, as it is shown.
    pub fn as_str(&self) -> (r: &'static str)
        ensures
            r@ == reachability_severity_name(*self),
    {
        match self {
            NetdataReachabilitySeverity::Info => "info",
            NetdataReachabilitySeverity::Critical => "critical",
        }
    }
}

/// Texts that differ only in the case of ASCII letters name the same alert
/// status, reachability status and reachability severity.
pub proof fn lemma_names_ignore_ascii_case(s: Seq<char>, t: Seq<char>)
    requires
        eq_ignore_ascii_case_spec(s, t),
    ensures
        alert_status_named(s) == alert_status_named(t),
        reachability_status_named(s) == reachability_status_named(t),
        reachability_severity_named(s) == reachability_severity_named(t),
{
    assert forall|u: Seq<char>| eq_ignore_ascii_case_spec(s, u) == eq_ignore_ascii_case_spec(t, u) by {
        if eq_ignore_ascii_case_spec(s, u) {
            assert forall|i: int| 0 <= i < t.len() implies ascii_lower_code(#[trigger] t[i]) == ascii_lower_code(u[i]) by {
                assert(ascii_lower_code(s[i]) == ascii_lower_code(t[i]));
            }
        }
        if eq_ignore_ascii_case_spec(t, u) {
            assert forall|i: int| 0 <= i < s.len() implies ascii_lower_code(#[trigger] s[i]) == ascii_lower_code(u[i]) by {
                assert(ascii_lower_code(s[i]) == ascii_lower_code(t[i]));
            }
        }
    }
}

proof fn lemma_eq_ignore_ascii_case_transitive(s: Seq<char>, t: Seq<char>, u: Seq<char>)
    requires
        eq_ignore_ascii_case_spec(s, t),
    ensures
        eq_ignore_ascii_case_spec(s, u) == eq_ignore_ascii_case_spec(t, u),
{
    if eq_ignore_ascii_case_spec(s, u) {
        assert forall|i: int| 0 <= i < t.len() implies ascii_lower_code(#[trigger] t[i]) == ascii_lower_code(u[i]) by {
            assert(ascii_lower_code(s[i]) == ascii_lower_code(t[i]));
        }
    }
    if eq_ignore_ascii_case_spec(t, u) {
        assert forall|i: int| 0 <= i < s.len() implies ascii_lower_code(#[trigger] s[i]) == ascii_lower_code(u[i]) by {
            assert(ascii_lower_code(s[i]) == ascii_lower_code(t[i]));
        }
    }
}

/// Which texts name which variant: exactly those equal, ASCII letters aside,
/// to the variant's name written in capitals.
pub proof fn lemma_names_read_as_documented(s: Seq<char>)
    ensures
        alert_status_named(s) == Some(NetdataAlertStatus::Critical) <==> eq_ignore_ascii_case_spec(s, "CRITICAL"@),
        alert_status_named(s) == Some(NetdataAlertStatus::Warning) <==> eq_ignore_ascii_case_spec(s, "WARNING"@),
        alert_status_named(s) == Some(NetdataAlertStatus::Clear) <==> eq_ignore_ascii_case_spec(s, "CLEAR"@),
        reachability_status_named(s) == Some(NetdataReachabilityStatus::Reachable) <==> eq_ignore_ascii_case_spec(s, "REACHABLE"@),
        reachability_status_named(s) == Some(NetdataReachabilityStatus::Unreachable) <==> eq_ignore_ascii_case_spec(s, "UNREACHABLE"@),
        reachability_severity_named(s) == Some(NetdataReachabilitySeverity::Info) <==> eq_ignore_ascii_case_spec(s, "INFO"@),
        reachability_severity_named(s) == Some(NetdataReachabilitySeverity::Critical) <==> eq_ignore_ascii_case_spec(s, "CRITICAL"@),
        reachability_status_name(NetdataReachabilityStatus::Reachable) == "reachable"@,
        reachability_status_name(NetdataReachabilityStatus::Unreachable) == "unreachable"@,
{
    reveal_strlit("Critical");
    reveal_strlit("Warning");
    reveal_strlit("Clear");
    reveal_strlit("CRITICAL");
    reveal_strlit("WARNING");
    reveal_strlit("CLEAR");
    reveal_strlit("reachable");
    reveal_strlit("unreachable");
    reveal_strlit("REACHABLE");
    reveal_strlit("UNREACHABLE");
    reveal_strlit("info");
    reveal_strlit("critical");
    reveal_strlit("INFO");
    assert(eq_ignore_ascii_case_spec("CRITICAL"@, "Critical"@));
    assert(eq_ignore_ascii_case_spec("WARNING"@, "Warning"@));
    assert(eq_ignore_ascii_case_spec("CLEAR"@, "Clear"@));
    assert(eq_ignore_ascii_case_spec("REACHABLE"@, "reachable"@));
    assert(eq_ignore_ascii_case_spec("UNREACHABLE"@, "unreachable"@));
    assert(eq_ignore_ascii_case_spec("INFO"@, "info"@));
    assert(eq_ignore_ascii_case_spec("CRITICAL"@, "critical"@));
    lemma_eq_ignore_ascii_case_transitive("CRITICAL"@, "Critical"@, s);
    lemma_eq_ignore_ascii_case_transitive("WARNING"@, "Warning"@, s);
    lemma_eq_ignore_ascii_case_transitive("CLEAR"@, "Clear"@, s);
    lemma_eq_ignore_ascii_case_transitive("REACHABLE"@, "reachable"@, s);
    lemma_eq_ignore_ascii_case_transitive("UNREACHABLE"@, "unreachable"@, s);
    lemma_eq_ignore_ascii_case_transitive("INFO"@, "info"@, s);
    lemma_eq_ignore_ascii_case_transitive("CRITICAL"@, "critical"@, s);
    assert(eq_ignore_ascii_case_spec(s, "CRITICAL"@) == eq_ignore_ascii_case_spec("CRITICAL"@, s));
    assert(eq_ignore_ascii_case_spec(s, "WARNING"@) == eq_ignore_ascii_case_spec("WARNING"@, s));
    assert(eq_ignore_ascii_case_spec(s, "CLEAR"@) == eq_ignore_ascii_case_spec("CLEAR"@, s));
    assert(eq_ignore_ascii_case_spec(s, "REACHABLE"@) == eq_ignore_ascii_case_spec("REACHABLE"@, s));
    assert(eq_ignore_ascii_case_spec(s, "UNREACHABLE"@) == eq_ignore_ascii_case_spec("UNREACHABLE"@, s));
    assert(eq_ignore_ascii_case_spec(s, "INFO"@) == eq_ignore_ascii_case_spec("INFO"@, s));
    assert(eq_ignore_ascii_case_spec(s, "Critical"@) == eq_ignore_ascii_case_spec("Critical"@, s));
    assert(eq_ignore_ascii_case_spec(s, "Warning"@) == eq_ignore_ascii_case_spec("Warning"@, s));
    assert(eq_ignore_ascii_case_spec(s, "Clear"@) == eq_ignore_ascii_case_spec("Clear"@, s));
    assert(eq_ignore_ascii_case_spec(s, "reachable"@) == eq_ignore_ascii_case_spec("reachable"@, s));
    assert(eq_ignore_ascii_case_spec(s, "unreachable"@) == eq_ignore_ascii_case_spec("unreachable"@, s));
    assert(eq_ignore_ascii_case_spec(s, "info"@) == eq_ignore_ascii_case_spec("info"@, s));
    assert(eq_ignore_ascii_case_spec(s, "critical"@) == eq_ignore_ascii_case_spec("critical"@, s));
    if eq_ignore_ascii_case_spec(s, "CRITICAL"@) {
        assert(!eq_ignore_ascii_case_spec(s, "Warning"@));
    }
    if eq_ignore_ascii_case_spec(s, "unreachable"@) {
        assert(!eq_ignore_ascii_case_spec(s, "reachable"@));
    }
    if eq_ignore_ascii_case_spec(s, "critical"@) {
        assert(!eq_ignore_ascii_case_spec(s, "info"@));
    }
}

/// Reading back the shown name of a reachability status or severity gives
/// the same status or severity.
pub proof fn lemma_reachability_names_round_trip(st: NetdataReachabilityStatus, sev: NetdataReachabilitySeverity)
    ensures
        reachability_status_named(reachability_status_name(st)) == Some(st),
        reachability_severity_named(reachability_severity_name(sev)) == Some(sev),
{
    reveal_strlit("reachable");
    reveal_strlit("unreachable");
    reveal_strlit("info");
    reveal_strlit("critical");
    let r = "reachable"@;
    let u = "unreachable"@;
    let i = "info"@;
    let c = "critical"@;
    assert(eq_ignore_ascii_case_spec(r, r));
    assert(eq_ignore_ascii_case_spec(u, u));
    assert(!eq_ignore_ascii_case_spec(u, r));
    assert(eq_ignore_ascii_case_spec(i, i));
    assert(eq_ignore_ascii_case_spec(c, c));
    assert(!eq_ignore_ascii_case_spec(c, i));
}

} // verus!
