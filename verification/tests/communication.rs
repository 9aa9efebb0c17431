use sms_db::models::communication::Announcement;
use sms_db::models::communication::Event;
use sms_db::models::communication::EventRsvp;
use sms_db::models::communication::Message;
use sms_db::models::system_and_audit::Notification;
use sms_db::models::system_and_audit::SmsLog;
use sms_db::models::DeliveryStatus;
use sms_db::models::NotificationType;
use sms_db::models::Priority;
use sms_db::models::RsvpResponse;
use sms_db::models::SmsType;
use sms_db::models::TargetAudience;
use sms_db::queries::AnnouncementQ;
use sms_db::queries::EventQ;
use sms_db::queries::MessageQ;
use sms_db::queries::NotificationQ;
use sms_db::queries::SmsLogQ;
use sms_db::values::RecordId;
use sms_db::values::Table;

fn rid(table: Table, key: &str) -> RecordId {
    RecordId { table, key: key.to_string() }
}

fn announcement(school: &str, title: &str, at: i64, published: bool) -> Announcement {
    Announcement {
        id: None,
        school_id: rid(Table::Schools, school),
        title: title.to_string(),
        message: String::new(),
        target_audience: TargetAudience::All,
        class_id: None,
        priority: Priority::Normal,
        send_sms: false,
        send_email: false,
        send_push: false,
        published,
        published_at: None,
        created_by: None,
        created_at: at,
        updated_at: at,
    }
}

fn message(from: &str, to: &str, at: i64, read: bool) -> Message {
    Message {
        id: None,
        school_id: rid(Table::Schools, "s1"),
        sender_id: rid(Table::Users, from),
        recipient_id: rid(Table::Users, to),
        subject: None,
        message_body: format!("{}>{}@{}", from, to, at),
        read,
        read_at: None,
        replied: false,
        parent_message_id: None,
        sent_at: at,
        created_at: at,
    }
}

fn notification(user: &str, at: i64, read: bool) -> Notification {
    Notification {
        id: None,
        user_id: rid(Table::Users, user),
        notification_type: NotificationType::System,
        title: format!("n{}", at),
        message: String::new(),
        link_url: None,
        read,
        read_at: None,
        sent_at: at,
        created_at: at,
    }
}

fn sms(school: &str, cost: Option<i64>, sent: Option<i64>, made: i64) -> SmsLog {
    SmsLog {
        id: None,
        school_id: rid(Table::Schools, school),
        recipient_phone: "0803".to_string(),
        recipient_user_id: None,
        message: String::new(),
        sms_type: SmsType::Other,
        provider: None,
        provider_message_id: None,
        status: DeliveryStatus::Sent,
        cost,
        sent_at: sent,
        delivered_at: None,
        created_at: made,
    }
}

#[test]
fn published_announcements_come_latest_first() {
    let mut all = Vec::new();
    for (k, a) in [
        ("n1", announcement("s1", "one", 1, true)),
        ("n2", announcement("s1", "two", 2, false)),
        ("n3", announcement("s2", "three", 3, true)),
        ("n4", announcement("s1", "four", 4, true)),
    ] {
        AnnouncementQ.create(&mut all, a, k.to_string()).unwrap();
    }
    let titles: Vec<String> = AnnouncementQ.get_published(&all, "s1".to_string(), None).iter().map(|a| a.title.clone()).collect();
    assert_eq!(titles, vec!["four", "one"]);
    let published = AnnouncementQ.publish(&mut all, "n2".to_string(), 9).unwrap();
    assert!(published.published);
    assert_eq!(published.published_at, Some(9));
    assert_eq!(published.updated_at, 9);
    let titles: Vec<String> = AnnouncementQ.get_published(&all, "s1".to_string(), Some(2)).iter().map(|a| a.title.clone()).collect();
    assert_eq!(titles, vec!["four", "two"]);
    assert!(AnnouncementQ.publish(&mut all, "n9".to_string(), 9).is_none());
    for i in 0..30 {
        AnnouncementQ.create(&mut all, announcement("s1", "more", 100 + i, true), format!("m{}", i)).unwrap();
    }
    assert_eq!(AnnouncementQ.get_published(&all, "s1".to_string(), None).len(), 20);
}

#[test]
fn messages_are_threaded_and_read() {
    let mut all = Vec::new();
    for (k, m) in [
        ("m1", message("u1", "u2", 5, false)),
        ("m2", message("u2", "u1", 3, false)),
        ("m3", message("u1", "u3", 4, false)),
        ("m4", message("u2", "u1", 9, true)),
        ("m5", message("u3", "u1", 7, false)),
    ] {
        MessageQ.send(&mut all, m, k.to_string()).unwrap();
    }
    let thread: Vec<i64> = MessageQ.get_thread(&all, "u1".to_string(), "u2".to_string()).iter().map(|m| m.sent_at).collect();
    assert_eq!(thread, vec![3, 5, 9]);
    let same: Vec<i64> = MessageQ.get_thread(&all, "u2".to_string(), "u1".to_string()).iter().map(|m| m.sent_at).collect();
    assert_eq!(same, thread);
    let unread: Vec<i64> = MessageQ.get_unread(&all, "u1".to_string()).iter().map(|m| m.sent_at).collect();
    assert_eq!(unread, vec![7, 3]);
    assert_eq!(MessageQ.count_unread(&all, "u1".to_string()), 2);
    let read = MessageQ.mark_read(&mut all, "m5".to_string(), 50).unwrap();
    assert!(read.read);
    assert_eq!(read.read_at, Some(50));
    assert_eq!(MessageQ.count_unread(&all, "u1".to_string()), 1);
    assert_eq!(MessageQ.count_unread(&all, "u9".to_string()), 0);
    assert!(MessageQ.mark_read(&mut all, "m9".to_string(), 50).is_none());
}

#[test]
fn events_are_upcoming_from_today_on() {
    let mut events = Vec::new();
    for (k, school, date) in [("e1", "s1", 30), ("e2", "s1", 10), ("e3", "s2", 40), ("e4", "s1", 20), ("e5", "s1", 19)] {
        let e = Event {
            id: None,
            school_id: rid(Table::Schools, school),
            event_name: k.to_string(),
            event_description: None,
            event_date: date,
            event_time: None,
            event_location: None,
            target_audience: TargetAudience::Parents,
            class_id: None,
            requires_rsvp: true,
            rsvp_deadline: None,
            created_by: None,
            created_at: 0,
            updated_at: 0,
        };
        EventQ.create(&mut events, e, k.to_string()).unwrap();
    }
    let names: Vec<String> = EventQ.get_upcoming(&events, "s1".to_string(), 20).iter().map(|e| e.event_name.clone()).collect();
    assert_eq!(names, vec!["e4", "e1"]);
    let mut rsvps = Vec::new();
    for (i, (event, response)) in [
        ("e1", RsvpResponse::Maybe),
        ("e1", RsvpResponse::Attending),
        ("e4", RsvpResponse::NotAttending),
        ("e1", RsvpResponse::Attending),
    ]
    .iter()
    .enumerate()
    {
        let v = EventRsvp {
            id: None,
            event_id: rid(Table::Events, event),
            user_id: rid(Table::Users, "u1"),
            student_id: None,
            response: *response,
            number_of_guests: 0,
            responded_at: 0,
            created_at: 0,
        };
        EventQ.rsvp(&mut rsvps, v, format!("v{}", i)).unwrap();
    }
    assert_eq!(EventQ.get_rsvp_summary(&rsvps, "e1".to_string()), vec![(RsvpResponse::Attending, 2), (RsvpResponse::Maybe, 1)]);
    assert_eq!(EventQ.get_rsvp_summary(&rsvps, "e4".to_string()), vec![(RsvpResponse::NotAttending, 1)]);
    assert!(EventQ.get_rsvp_summary(&rsvps, "e2".to_string()).is_empty());
}

#[test]
fn notifications_are_read_one_by_one_or_all_at_once() {
    let mut all = Vec::new();
    for (k, n) in [("n1", notification("u1", 1, false)), ("n2", notification("u1", 5, false)), ("n3", notification("u2", 3, false)), ("n4", notification("u1", 4, true))] {
        NotificationQ.create(&mut all, n, k.to_string()).unwrap();
    }
    let unread: Vec<i64> = NotificationQ.get_unread(&all, "u1".to_string()).iter().map(|n| n.sent_at).collect();
    assert_eq!(unread, vec![5, 1]);
    NotificationQ.mark_read(&mut all, "n1".to_string(), 10).unwrap();
    assert_eq!(all[0].read_at, Some(10));
    let rest = NotificationQ.mark_all_read(&mut all, "u1".to_string(), 11);
    assert_eq!(rest.len(), 1);
    assert_eq!(rest[0].sent_at, 5);
    assert_eq!(all[1].read_at, Some(11));
    assert_eq!(all[0].read_at, Some(10));
    assert_eq!(all[3].read_at, None);
    assert!(!all[2].read);
    assert!(NotificationQ.get_unread(&all, "u1".to_string()).is_empty());
    assert!(NotificationQ.mark_all_read(&mut all, "u1".to_string(), 12).is_empty());
    assert!(NotificationQ.mark_read(&mut all, "n9".to_string(), 12).is_none());
}

#[test]
fn the_cost_of_a_month_is_summed() {
    let mut all = Vec::new();
    for (i, l) in [
        sms("s1", Some(4_00), Some(100), 1),
        sms("s1", Some(2_50), Some(150), 2),
        sms("s1", Some(9_00), Some(99), 3),
        sms("s1", Some(9_00), Some(200), 4),
        sms("s2", Some(9_00), Some(150), 5),
        sms("s1", None, Some(150), 6),
        sms("s1", Some(9_00), None, 7),
    ]
    .into_iter()
    .enumerate()
    {
        SmsLogQ.log(&mut all, l, format!("l{}", i)).unwrap();
    }
    assert_eq!(SmsLogQ.get_monthly_cost(&all, "s1".to_string(), 100, 200), Some(6_50));
    assert_eq!(SmsLogQ.get_monthly_cost(&all, "s1".to_string(), 100, 201), Some(15_50));
    assert_eq!(SmsLogQ.get_monthly_cost(&all, "s1".to_string(), 300, 400), None);
    assert_eq!(SmsLogQ.get_monthly_cost(&all, "s3".to_string(), 0, 400), None);
    let stamps: Vec<i64> = SmsLogQ.get_by_school(&all, "s1".to_string(), Some(3)).iter().map(|l| l.created_at).collect();
    assert_eq!(stamps, vec![7, 6, 4]);
    assert_eq!(SmsLogQ.get_by_school(&all, "s1".to_string(), None).len(), 6);
}
