use fts_index::bayes::{bayes_train_task, TaskQueueClass};
use fts_index::calendar::{
    ArchivedTimezone, Calendar, CalendarEvent, CalendarEventName, CalendarPreferences, CalendarScheduling,
    DeadProperty, DefaultAlert, ICalendar, Timezone,
};
use fts_index::collection::{CalendarField, SyncCollection};
use fts_index::error::{caused_by, Error, ErrorKind};
use fts_index::fact::{AclGrant, IndexKey, IndexValue, IndexableAndSerializableObject, IndexableObject};
use fts_index::hex::hex_digits;
use fts_index::identity::Identity;

fn prefs(name: &str, description: Option<&str>, color: Option<&str>, time_zone: Timezone) -> CalendarPreferences {
    CalendarPreferences {
        account_id: 1,
        name: name.to_string(),
        description: description.map(|s| s.to_string()),
        color: color.map(|s| s.to_string()),
        time_zone,
    }
}

fn team_calendar() -> Calendar {
    Calendar {
        name: "Team".to_string(),
        acls: vec![AclGrant { account_id: 2, grants: 3 }, AclGrant { account_id: 3, grants: 1 }],
        dead_properties: DeadProperty { size: 0 },
        preferences: vec![prefs("", Some("0123456789"), Some("ff00ff"), Timezone::IANA(12))],
        default_alerts: vec![],
    }
}

#[test]
fn calendar_scenario_quota_and_facts() {
    let cal = team_calendar();
    assert_eq!(cal.preferences[0].size(), 10 + 6 + 2);
    assert_eq!(cal.quota(), 22);
    let facts = cal.index_values();
    assert_eq!(
        facts,
        vec![
            IndexValue::Acl { value: vec![AclGrant { account_id: 2, grants: 3 }, AclGrant { account_id: 3, grants: 1 }] },
            IndexValue::Quota { used: 22 },
            IndexValue::LogContainer { sync_collection: SyncCollection::Calendar },
        ]
    );
    assert!(Calendar::is_versioned());
}

#[test]
fn calendar_archived_form_yields_same_facts() {
    let mut cal = team_calendar();
    cal.dead_properties = DeadProperty { size: 40 };
    cal.default_alerts.push(DefaultAlert {
        account_id: 1,
        id: "alert-1".to_string(),
        alert: ICalendar { uids: vec![], size: 100 },
    });
    cal.preferences.push(prefs("Mine", None, None, Timezone::Custom(ICalendar { uids: vec![], size: 30 })));
    let archived = cal.archive();
    assert_eq!(archived.quota(), cal.quota());
    assert_eq!(cal.quota(), 40 + 18 + (4 + 30) + (100 + 7) + 4);
    assert_eq!(archived.index_values(), cal.index_values());
}

#[test]
fn timezone_sizes() {
    assert_eq!(Timezone::IANA(400).size(), 2);
    assert_eq!(Timezone::Default.size(), 0);
    let c = Timezone::Custom(ICalendar { uids: vec![], size: 77 });
    assert_eq!(c.size(), 77);
    assert_eq!(c.archive().size(), 77);
    let custom = ICalendar { uids: vec![], size: 5 };
    assert_eq!(ArchivedTimezone::Custom(&custom).size(), 5);
    assert_eq!(ArchivedTimezone::IANA(1).size(), 2);
    assert_eq!(ArchivedTimezone::Default.size(), 0);
}

#[test]
fn preference_and_alert_sizes_count_bytes() {
    let p = prefs("Cal\u{e9}", Some("d"), None, Timezone::Default);
    assert_eq!(p.size(), 5 + 1);
    assert_eq!(p.archive().size(), 6);
    let longer = prefs("Cal\u{e9}x", Some("d"), None, Timezone::Default);
    assert!(longer.size() > p.size());
    let a = DefaultAlert { account_id: 1, id: "abc".to_string(), alert: ICalendar { uids: vec![], size: 9 } };
    assert_eq!(a.size(), 12);
    assert_eq!(a.archive().size(), 12);
}

fn event() -> CalendarEvent {
    CalendarEvent {
        event: ICalendar { uids: vec!["uid-1".to_string(), "uid-2".to_string()], size: 0 },
        dead_properties: DeadProperty { size: 3 },
        display_name: Some("Standup".to_string()),
        names: vec![
            CalendarEventName { name: "a.ics".to_string(), parent_id: 1 },
            CalendarEventName { name: "bb.ics".to_string(), parent_id: 2 },
        ],
        size: 1000,
    }
}

#[test]
fn event_facts() {
    let ev = event();
    let expected = vec![
        IndexValue::Index { field: CalendarField::Uid.id(), value: IndexKey::Text("uid-1".to_string()) },
        IndexValue::Quota { used: 3 + 7 + 5 + 6 + 1000 },
        IndexValue::LogItem { sync_collection: SyncCollection::Calendar, prefix: None },
    ];
    assert_eq!(ev.index_values(), expected);
    assert_eq!(ev.archive().index_values(), expected);
    assert!(CalendarEvent::is_versioned());
}

#[test]
fn event_without_uid_and_saturated_quota() {
    let mut ev = event();
    ev.event.uids.clear();
    ev.size = u32::MAX;
    let facts = ev.index_values();
    assert_eq!(facts[0], IndexValue::Index { field: CalendarField::Uid.id(), value: IndexKey::Absent });
    assert_eq!(facts[1], IndexValue::Quota { used: u32::MAX });
}

#[test]
fn scheduling_scenario_facts() {
    let s = CalendarScheduling { size: 500, created: 1_700_000_000 };
    let expected = vec![
        IndexValue::Quota { used: 500 },
        IndexValue::Index { field: CalendarField::Created.id(), value: IndexKey::Integer(1_700_000_000) },
        IndexValue::LogItem { sync_collection: SyncCollection::CalendarScheduling, prefix: None },
    ];
    assert_eq!(s.index_values(), expected);
    assert_eq!(s.archive().index_values(), expected);
    assert!(!CalendarScheduling::is_versioned());
}

#[test]
fn identity_facts() {
    let id = Identity { name: "Jane".to_string(), email: "jane@example.org".to_string() };
    let expected = vec![IndexValue::LogItem { sync_collection: SyncCollection::Identity, prefix: None }];
    assert_eq!(id.index_values(), expected);
    assert_eq!(id.archive().index_values(), expected);
    assert!(!Identity::is_versioned());
}

#[test]
fn versioning_is_per_type() {
    let a = CalendarScheduling { size: 1, created: 1 };
    let b = CalendarScheduling { size: 900, created: -5 };
    assert_eq!(a.index_values().len(), b.index_values().len());
    assert_eq!(CalendarScheduling::is_versioned(), CalendarScheduling::is_versioned());
    assert!(Calendar::is_versioned() && CalendarEvent::is_versioned());
}

#[test]
fn error_context_keeps_kind() {
    let e = Error::new(ErrorKind::Io).account_id(4).caused_by("inner").caused_by("outer");
    assert_eq!(e.kind, ErrorKind::Io);
    assert_eq!(e.account_id, Some(4));
    assert_eq!(e.context, vec!["inner", "outer"]);
    let r: Result<u8, Error> = caused_by(Err(Error::new(ErrorKind::Unavailable)), "site");
    match r {
        Err(f) => {
            assert_eq!(f.kind, ErrorKind::Unavailable);
            assert_eq!(f.context, vec!["site"]);
        }
        Ok(_) => panic!("expected an error"),
    }
    assert!(matches!(caused_by::<u8>(Ok(3), "site"), Ok(3)));
}

#[test]
fn bayes_task_and_missing_metadata() {
    let hash = [7u8; 32];
    assert_eq!(
        bayes_train_task(1, 2, true, Some(hash), 99).unwrap(),
        TaskQueueClass::BayesTrain { due: 99, hash, learn_spam: true }
    );
    let e = bayes_train_task(1, 2, false, None, 99).unwrap_err();
    assert_eq!(e.kind, ErrorKind::NotFound);
    assert_eq!(e.account_id, Some(1));
    assert_eq!(e.document_id, Some(2));
}

#[test]
fn hex_text() {
    assert_eq!(hex_digits(0), b"0".to_vec());
    assert_eq!(hex_digits(255), b"ff".to_vec());
    assert_eq!(hex_digits(0x1a2b), b"1a2b".to_vec());
    assert_eq!(hex_digits(u32::MAX), b"ffffffff".to_vec());
}
