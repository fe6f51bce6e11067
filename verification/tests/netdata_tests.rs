use ntfy_bridge::netdata::{
    NetdataAlert, NetdataAlertConfig, NetdataAlertPayload, NetdataAlertRendered, NetdataAlertState,
    NetdataAlertStatus, NetdataNode, NetdataPayload, NetdataReachabilityPayload,
    NetdataReachabilitySeverity, NetdataReachabilityStatus, NetdataSpace, NetdataTokenPayload,
    VariantNotFound,
};
use ntfy_bridge::notification::{compose_notification, netdata_notification, Priority};
use ntfy_bridge::url_check::UrlParts;

#[test]
fn when_parsing_alert_status_case_insensitive_then_should_succeed() {
    let statuses = vec![
        "critical", "CRITICAL", "Critical", "warning", "WARNING", "Warning", "clear", "CLEAR",
        "Clear",
    ];
    for status_raw in statuses {
        let status = NetdataAlertStatus::parse(status_raw).expect("should have parsed status");
        match status_raw.to_lowercase().as_str() {
            "critical" => assert_eq!(status, NetdataAlertStatus::Critical),
            "warning" => assert_eq!(status, NetdataAlertStatus::Warning),
            "clear" => assert_eq!(status, NetdataAlertStatus::Clear),
            _ => unreachable!(),
        }
    }
}

#[test]
fn when_parsing_reachability_status_case_insensitive_then_should_succeed() {
    let statuses = vec![
        "reachable",
        "REACHABLE",
        "Reachable",
        "unreachable",
        "UNREACHABLE",
        "Unreachable",
    ];
    for status_raw in statuses {
        let status = NetdataReachabilityStatus::parse(status_raw)
            .expect("should have parsed reachability status");
        match status_raw.to_lowercase().as_str() {
            "reachable" => assert_eq!(status, NetdataReachabilityStatus::Reachable),
            "unreachable" => assert_eq!(status, NetdataReachabilityStatus::Unreachable),
            _ => unreachable!(),
        }
    }
}

#[test]
fn when_parsing_reachability_severity_case_insensitive_then_should_succeed() {
    let severities = vec!["info", "INFO", "Info", "critical", "CRITICAL", "Critical"];
    for severity_raw in severities {
        let severity = NetdataReachabilitySeverity::parse(severity_raw)
            .expect("should have parsed reachability severity");
        match severity_raw.to_lowercase().as_str() {
            "info" => assert_eq!(severity, NetdataReachabilitySeverity::Info),
            "critical" => assert_eq!(severity, NetdataReachabilitySeverity::Critical),
            _ => unreachable!(),
        }
    }
}

#[test]
fn unknown_names_are_refused() {
    assert_eq!(NetdataAlertStatus::parse("fatal"), Err(VariantNotFound::VariantNotFound));
    assert_eq!(NetdataAlertStatus::parse(""), Err(VariantNotFound::VariantNotFound));
    assert_eq!(NetdataAlertStatus::parse("Critical "), Err(VariantNotFound::VariantNotFound));
    assert_eq!(NetdataReachabilityStatus::parse("up"), Err(VariantNotFound::VariantNotFound));
    assert_eq!(NetdataReachabilitySeverity::parse("warn"), Err(VariantNotFound::VariantNotFound));
}

#[test]
fn shown_names_read_back() {
    for s in [NetdataReachabilityStatus::Reachable, NetdataReachabilityStatus::Unreachable] {
        assert_eq!(NetdataReachabilityStatus::parse(s.as_str()), Ok(s));
    }
    for s in [NetdataReachabilitySeverity::Info, NetdataReachabilitySeverity::Critical] {
        assert_eq!(NetdataReachabilitySeverity::parse(s.as_str()), Ok(s));
    }
    assert_eq!(NetdataReachabilityStatus::Unreachable.as_str(), "unreachable");
    assert_eq!(NetdataReachabilitySeverity::Critical.as_str(), "critical");
}

fn alert(status: NetdataAlertStatus, url: &str) -> NetdataPayload {
    NetdataPayload::Alert(NetdataAlertPayload {
        message: "Raised to Critical, System swap memory utilization = 100%, on la1.node.garland.slvn.co".to_string(),
        space: NetdataSpace { name: "Slvn.co".to_string() },
        node: NetdataNode { hostname: "la1.node.garland.slvn.co".to_string() },
        alert: NetdataAlert {
            name: "used_swap".to_string(),
            state: NetdataAlertState { status },
            rendered: NetdataAlertRendered { info: "Swap memory utilization".to_string() },
            url: url.to_string(),
            config: NetdataAlertConfig { classification: "Utilization".to_string() },
        },
    })
}

fn reachability(severity: NetdataReachabilitySeverity, status: NetdataReachabilityStatus, nodes: Vec<&str>) -> NetdataPayload {
    NetdataPayload::Reachability(NetdataReachabilityPayload {
        message: "Slvn.co/sa1.node.garland.slvn.co is unreachable".to_string(),
        url: "https://app.netdata.cloud/spaces/slvn-co/rooms/all-nodes/nodes/6c7cc3a5".to_string(),
        severity,
        status,
        nodes: nodes.into_iter().map(|h| NetdataNode { hostname: h.to_string() }).collect(),
    })
}

#[test]
fn token_payload_becomes_message_with_token() {
    let payload = NetdataPayload::Token(NetdataTokenPayload {
        message: "This is a Test Notification.".to_string(),
        title: "Test Notification".to_string(),
        token: "2b633082-34ec-4ec3-946c-5e81076c39af".to_string(),
    });
    let n = netdata_notification("alerts", &payload);
    assert_eq!(n.topic, "alerts");
    assert_eq!(
        n.message.as_deref(),
        Some("This is a Test Notification.\n\nToken: 2b633082-34ec-4ec3-946c-5e81076c39af")
    );
    assert_eq!(n.title.as_deref(), Some("Test Notification"));
    assert_eq!(n.priority, None);
    assert_eq!(n.tags, None);
    assert_eq!(n.click, None);
}

#[test]
fn alert_payload_priority_follows_status() {
    let url = "https://app.netdata.cloud/spaces/slvn-co/alerts/x?chart=mem.swap";
    let n = netdata_notification("t", &alert(NetdataAlertStatus::Critical, url));
    assert_eq!(n.priority, Some(Priority::Max));
    assert_eq!(n.title.as_deref(), Some("Swap memory utilization"));
    assert_eq!(n.tags, Some(vec!["Utilization".to_string()]));
    assert_eq!(n.click.as_deref(), Some(url));
    assert_eq!(
        netdata_notification("t", &alert(NetdataAlertStatus::Warning, url)).priority,
        Some(Priority::High)
    );
    assert_eq!(
        netdata_notification("t", &alert(NetdataAlertStatus::Clear, url)).priority,
        Some(Priority::Default)
    );
}

#[test]
fn alert_link_is_serialised_by_the_url_parser() {
    let n = netdata_notification("t", &alert(NetdataAlertStatus::Critical, "HTTPS://Example.com"));
    assert_eq!(n.click.as_deref(), Some("https://example.com/"));
}

#[test]
fn unparsable_link_is_left_out() {
    let n = netdata_notification("t", &alert(NetdataAlertStatus::Clear, "not a url"));
    assert_eq!(n.click, None);
}

#[test]
fn reachability_payload_names_first_node() {
    let n = netdata_notification(
        "nodes",
        &reachability(
            NetdataReachabilitySeverity::Critical,
            NetdataReachabilityStatus::Unreachable,
            vec!["sa1.node.garland.slvn.co", "other"],
        ),
    );
    assert_eq!(n.title.as_deref(), Some("Reachability: sa1.node.garland.slvn.co"));
    assert_eq!(n.priority, Some(Priority::Max));
    assert_eq!(n.tags, Some(vec!["unreachable".to_string()]));
    assert_eq!(
        n.message.as_deref(),
        Some("Slvn.co/sa1.node.garland.slvn.co is unreachable")
    );
    assert!(n.click.is_some());
}

#[test]
fn reachability_payload_without_nodes_is_about_unknown_host() {
    let n = netdata_notification(
        "nodes",
        &reachability(NetdataReachabilitySeverity::Info, NetdataReachabilityStatus::Reachable, vec![]),
    );
    assert_eq!(n.title.as_deref(), Some("Reachability: Unknown"));
    assert_eq!(n.priority, Some(Priority::Default));
    assert_eq!(n.tags, Some(vec!["reachable".to_string()]));
}

#[test]
fn composed_notification_takes_the_given_link() {
    let payload = alert(NetdataAlertStatus::Warning, "ignored");
    let parts = UrlParts {
        scheme: "https".to_string(),
        host: Some("example.org".to_string()),
        serialization: "https://example.org/page".to_string(),
    };
    let n = compose_notification("t", &payload, Ok(parts));
    assert_eq!(n.click.as_deref(), Some("https://example.org/page"));
    let n = compose_notification("t", &payload, Err("bad".to_string()));
    assert_eq!(n.click, None);
}
