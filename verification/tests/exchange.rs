use gungnir_app::exchange::{
    capitalised, items_in_words, join, line_for, roles_that_may_publish, ExchangeItem,
    ExchangePublishing, ExchangeStanding, LinkStanding, PublishRefusal, PublishRetry,
};
use gungnir_app::session::Role;

/// The longest interval at which the link offers a set again, in seconds.
const CEILING_S: u64 = 60;

/// The roles the authority matrix lets publish to exchange.
fn publishers() -> String {
    roles_that_may_publish(&[Role::Supervisor, Role::Commander])
}

fn refused(status: u16, reason: &str) -> LinkStanding {
    LinkStanding {
        waiting: vec![ExchangeItem::Handoffs, ExchangeItem::Warnings],
        publishing: ExchangePublishing {
            posts: 1,
            superseded: 12,
            refused: Some(PublishRefusal {
                item: ExchangeItem::Handoffs,
                status,
                reason: reason.into(),
            }),
            ..ExchangePublishing::default()
        },
    }
}

#[test]
fn a_refused_console_is_told_why_what_is_held_and_what_would_change_it() {
    let roles = publishers();
    let line = line_for(
        &refused(403, "role Operator may not publish to exchange (exchange.publish)"),
        &roles,
        CEILING_S,
    );
    assert_eq!(line.standing, ExchangeStanding::Refused);
    for words in [
        "Not publishing to coalition exchange",
        "403: role Operator may not publish to exchange",
        "This console's handoffs and launch warnings are held here",
        "12 older sets were replaced",
    ] {
        assert!(line.text.contains(words), "{words:?} not in {}", line.text);
    }
    assert!(
        roles.contains("Supervisor") && !roles.contains("Operator,"),
        "{roles}"
    );
    assert!(
        line.text.contains(&format!("may publish ({roles})")),
        "{}",
        line.text
    );
}

#[test]
fn a_session_the_node_no_longer_accepts_says_to_sign_in_again() {
    let line = line_for(&refused(401, "the token is not valid"), &publishers(), CEILING_S);
    assert_eq!(line.standing, ExchangeStanding::Refused);
    assert!(line.text.contains("no longer accepts this link's session"));
    assert!(line.text.contains("sent when the link signs in again"));
    assert!(!line.text.contains("Supervisor"), "{}", line.text);
}

#[test]
fn a_set_the_node_has_not_taken_yet_is_waiting() {
    let line = line_for(
        &LinkStanding {
            waiting: vec![ExchangeItem::Reports],
            publishing: ExchangePublishing {
                retrying: Some(PublishRetry {
                    attempts: 4,
                    last_failure: "507: the register is full".into(),
                }),
                ..ExchangePublishing::default()
            },
        },
        &publishers(),
        CEILING_S,
    );
    assert_eq!(line.standing, ExchangeStanding::Waiting);
    assert!(
        line.text
            .contains("this console's mission report is waiting for the node"),
        "{}",
        line.text
    );
    assert!(
        line.text.contains("4 attempts (the last: 507"),
        "{}",
        line.text
    );
}

#[test]
fn a_console_with_nothing_waiting_says_what_it_has_published() {
    let mut standing = LinkStanding::default();
    assert!(line_for(&standing, &publishers(), CEILING_S).text.contains("nothing published"));
    standing.publishing.delivered = 3;
    let line = line_for(&standing, &publishers(), CEILING_S);
    assert_eq!(line.standing, ExchangeStanding::Current);
    assert!(line.text.contains("3 sets published"), "{}", line.text);
    standing.publishing.rejected = 1;
    standing.publishing.last_rejection = Some(PublishRefusal {
        item: ExchangeItem::Reports,
        status: 400,
        reason: "the products could not be decoded".into(),
    });
    let line = line_for(&standing, &publishers(), CEILING_S);
    assert_eq!(line.standing, ExchangeStanding::Waiting);
    assert!(
        line.text
            .contains("rejected 1 set as sent, the last of mission report (400"),
        "{}",
        line.text
    );
}

#[test]
fn the_whole_waiting_sentence_reads_as_written() {
    let line = line_for(
        &LinkStanding {
            waiting: vec![ExchangeItem::Reports],
            publishing: ExchangePublishing {
                retrying: Some(PublishRetry {
                    attempts: 1,
                    last_failure: "504: gateway timeout".into(),
                }),
                ..ExchangePublishing::default()
            },
        },
        "Supervisor",
        CEILING_S,
    );
    assert_eq!(
        line.text,
        "Coalition exchange: this console's mission report is waiting for the node, which has \
         not taken it after 1 attempt (the last: 504: gateway timeout). Offered again at a \
         growing interval, never less often than every 60 s."
    );
}

#[test]
fn sending_and_one_superseded_set_read_in_the_singular() {
    let line = line_for(
        &LinkStanding {
            waiting: vec![ExchangeItem::Tracks],
            publishing: ExchangePublishing {
                superseded: 1,
                delivered: 1,
                ..ExchangePublishing::default()
            },
        },
        "Supervisor",
        CEILING_S,
    );
    assert_eq!(line.standing, ExchangeStanding::Current);
    assert_eq!(
        line.text,
        "Coalition exchange: sending this console's tracks to the node. 1 older set was \
         replaced by a newer one before it could be sent; only the newest set of each is held."
    );
    let quiet = line_for(
        &LinkStanding {
            waiting: vec![],
            publishing: ExchangePublishing { delivered: 1, ..ExchangePublishing::default() },
        },
        "Supervisor",
        CEILING_S,
    );
    assert_eq!(quiet.text, "Coalition exchange: 1 set published from this console; nothing waiting.");
}

#[test]
fn lists_read_as_prose() {
    let words = |ws: &[&str]| ws.iter().map(|w| w.to_string()).collect::<Vec<_>>();
    assert_eq!(join(&words(&[]), "and"), "");
    assert_eq!(join(&words(&["a"]), "and"), "a");
    assert_eq!(join(&words(&["a", "b"]), "and"), "a and b");
    assert_eq!(join(&words(&["a", "b", "c", "d"]), "or"), "a, b, c or d");
}

#[test]
fn held_items_agree_with_their_verb() {
    assert_eq!(items_in_words(&[]), ("nothing".to_string(), "is"));
    assert_eq!(
        items_in_words(&[ExchangeItem::Health]),
        ("this console's health".to_string(), "is")
    );
    assert_eq!(
        items_in_words(&[ExchangeItem::Tracks]),
        ("this console's tracks".to_string(), "are")
    );
    assert_eq!(
        items_in_words(&[ExchangeItem::Reports, ExchangeItem::Health]),
        ("this console's mission report and health".to_string(), "are")
    );
}

#[test]
fn the_first_letter_is_capitalised() {
    assert_eq!(capitalised(""), "");
    assert_eq!(capitalised("this console's"), "This console's");
    assert_eq!(capitalised("élan"), "Élan");
    assert_eq!(capitalised("1 set"), "1 set");
}
