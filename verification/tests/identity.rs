use gungnir_app::identity::{
    recover, Envelope, Sighting, TrackingEvent,
    lineage_lines, retained_sessions, unattributed, unlisted, unreadable_session, CorrelationView, LineageView,
    OwnedLineage, TrackSession,
};
use gungnir_app::journal::SessionRead;

fn lineages() -> Vec<LineageView> {
    vec![
        LineageView { tracks: vec![1, 2], correlations: vec![] },
        LineageView {
            tracks: vec![3, 4],
            correlations: vec![CorrelationView { track: 4, confidence: "0.87".into(), basis: "speed and heading".into() }],
        },
    ]
}

#[test]
fn a_lineage_line_rests_on_its_session_and_its_correlation() {
    let records = vec![TrackSession { track: 3, session: 100 }, TrackSession { track: 4, session: 200 }];
    let lines = lineage_lines(&lineages(), &records, 4);
    assert_eq!(
        lines,
        vec![
            OwnedLineage { session: 100, local_track: 3, basis: "session track id".into() },
            OwnedLineage { session: 200, local_track: 4, basis: "similarity 0.87: speed and heading".into() },
        ]
    );
    assert!(lineage_lines(&lineages(), &records, 9).is_empty());
    let unrecorded = lineage_lines(&lineages(), &records, 1);
    assert_eq!(unrecorded[0].session, 0);
}

#[test]
fn every_track_nothing_accounts_for_is_counted() {
    let records = vec![TrackSession { track: 3, session: 100 }];
    // Track 1's lineage has no record and is dropped; track 9 was named without state.
    assert_eq!(unattributed(&[1, 2, 3, 4, 9], &lineages(), &records), 3);
    assert_eq!(unattributed(&[], &lineages(), &records), 0);
}

#[test]
fn the_newest_retained_sessions_are_folded_oldest_first() {
    assert_eq!(retained_sessions(vec![30, 10, 40, 20], 2), vec![30, 40]);
    assert_eq!(retained_sessions(vec![30, 10], 5), vec![10, 30]);
    assert!(retained_sessions(vec![30, 10], 0).is_empty());
}

#[test]
fn a_fold_that_stopped_short_says_where() {
    assert_eq!(unlisted("denied"), "the session list could not be read: denied");
    assert_eq!(unreadable_session(12, "corrupt"), "session 12: corrupt");
}

fn env(seq: u64, event: Option<TrackingEvent>) -> Envelope {
    Envelope { seq, event }
}

#[test]
fn the_fold_reads_the_newest_retained_sessions_oldest_first() {
    let journal = vec![
        SessionRead { session: 9, events: Ok(vec![env(1, Some(TrackingEvent::Sighted(90)))]) },
        SessionRead { session: 3, events: Ok(vec![env(1, Some(TrackingEvent::Sighted(30)))]) },
        SessionRead {
            session: 5,
            events: Ok(vec![
                env(4, Some(TrackingEvent::Sighted(50))),
                env(5, None),
                env(6, Some(TrackingEvent::NamedOnly(51))),
            ]),
        },
    ];
    let fold = recover(Ok(journal), 2);
    assert_eq!(fold.sessions, vec![5, 9]);
    assert_eq!(
        fold.sightings,
        vec![
            Sighting { session: 5, seq: 4, track: 50 },
            Sighting { session: 9, seq: 1, track: 90 },
        ]
    );
    assert_eq!(fold.seen.into_iter().collect::<Vec<_>>(), vec![50, 51, 90]);
    assert_eq!(fold.unreadable, None);
}

#[test]
fn an_unreadable_session_stops_the_fold_and_says_which() {
    let journal = vec![
        SessionRead { session: 1, events: Ok(vec![env(1, Some(TrackingEvent::NamedOnly(7)))]) },
        SessionRead { session: 2, events: Err("torn write".to_string()) },
        SessionRead { session: 3, events: Ok(vec![env(1, Some(TrackingEvent::Sighted(8)))]) },
    ];
    let fold = recover(Ok(journal), 10);
    assert_eq!(fold.sessions, vec![1]);
    assert!(fold.sightings.is_empty());
    assert_eq!(fold.seen.into_iter().collect::<Vec<_>>(), vec![7]);
    assert_eq!(fold.unreadable.as_deref(), Some("session 2: torn write"));
}

#[test]
fn an_unlisted_journal_folds_nothing() {
    let fold = recover(Err("permission denied".to_string()), 3);
    assert!(fold.sessions.is_empty() && fold.sightings.is_empty() && fold.seen.is_empty());
    assert_eq!(fold.unreadable.as_deref(), Some("the session list could not be read: permission denied"));
}
