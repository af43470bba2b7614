use gungnir_app::peers::{not_a_node, not_bound, peer_lines, refused_warning, starts_with, OwnedPeerLine, PeerLinkView};

#[test]
fn a_peer_that_has_not_answered_says_so() {
    let lines = peer_lines(&[
        PeerLinkView { name: "north".into(), endpoint: "https://n:8443".into(), connected: false, last_error: None },
        PeerLinkView {
            name: "south".into(),
            endpoint: "https://s:8443".into(),
            connected: false,
            last_error: Some("refused".into()),
        },
    ]);
    assert_eq!(
        lines[0],
        OwnedPeerLine {
            name: "north".into(),
            endpoint: "https://n:8443".into(),
            connected: false,
            reason: "no answer yet".into()
        }
    );
    assert_eq!(lines[1].reason, "refused");
}

#[test]
fn only_a_peer_endpoint_at_a_node_url_is_bound() {
    assert_eq!(not_a_node("north", "n-node", "peer", "https://n:8443"), None);
    assert_eq!(
        not_a_node("north", "n-radar", "radar", "udp://10.0.0.1:9000"),
        Some("peer north: endpoint n-radar is a \"radar\" at udp://10.0.0.1:9000, not a node url; no link bound".into())
    );
    assert!(not_a_node("north", "n", "peer", "10.0.0.1").is_some());
}

#[test]
fn peer_alerts_name_the_peer() {
    assert_eq!(not_bound("north", "bad certificate"), "peer north: link not bound: bad certificate");
    assert_eq!(
        refused_warning("north", "unsigned"),
        "peer north sent a launch warning this deployment refused: unsigned"
    );
    assert!(starts_with("https://x", "http"));
    assert!(!starts_with("htt", "http"));
}
