//! Announcements, messages, events, notifications and the SMS log.

use vstd::prelude::*;
use crate::error::DbResult;
use crate::models::communication::Announcement;
use crate::models::communication::Event;
use crate::models::communication::EventRsvp;
use crate::models::communication::Message;
use crate::models::RsvpResponse;
use crate::models::system_and_audit::Notification;
use crate::models::system_and_audit::SmsLog;
use crate::table::capped;
use crate::table::count;
use crate::table::create;
use crate::table::files;
use crate::table::holds;
use crate::table::in_order;
use crate::table::keyed;
use crate::table::law_numbers_rank;
use crate::table::lemma_limited_in_order;
use crate::table::limit_or;
use crate::table::limited;
use crate::table::ordered;
use crate::table::Record;
use crate::table::revise_all;
use crate::table::revise_first;
use crate::table::revised_first;
use crate::table::rewrite_all;
use crate::table::rewrite_by_id;
use crate::table::select_ordered;
use crate::table::tally;
use crate::table::total;
use crate::values::Datetime;
use crate::values::RecordId;
use crate::values::Table;
use crate::values::Total;

verus! {

/// The repository of announcements.
pub struct AnnouncementQ;

impl AnnouncementQ {
    /// The published announcements of one school.
    pub open spec fn published_by(school_id: Seq<char>) -> spec_fn(Announcement) -> bool {
        |a: Announcement| a.school_id.names(Table::Schools, school_id) && a.published
    }

    /// The announcement that was made later comes first.
    pub open spec fn latest_first() -> spec_fn(Announcement, Announcement) -> bool {
        |a: Announcement, b: Announcement| a.created_at > b.created_at
    }

    /// An announcement published at `now`.
    pub open spec fn released(now: Datetime) -> spec_fn(Announcement) -> Announcement {
        |a: Announcement|
            Announcement { published: true, published_at: Some(now), updated_at: now, ..a }
    }

    /// Files an announcement under `key`.
    pub fn create(&self, announcements: &mut Vec<Announcement>, data: Announcement, key: String)
        -> (r: DbResult<Option<Announcement>>)
        ensures
            files(
                old(announcements)@,
                final(announcements)@,
                data.filed(RecordId { table: Table::Announcements, key }),
                r,
            ),
    {
        create(announcements, data, Table::Announcements, key)
    }

    /// The latest published announcements of a school, the latest first:
    /// as many as `limit` says, 20 where it says nothing.
    pub fn get_published(
        &self,
        announcements: &Vec<Announcement>,
        school_id: String,
        limit: Option<u32>,
    ) -> (r: Vec<Announcement>)
        ensures
            r@ == limited(
                ordered(
                    announcements@.filter(Self::published_by(school_id@)),
                    Self::latest_first(),
                ),
                limit_or(limit, 20),
            ),
            in_order(r@, Self::latest_first()),
            r.len() <= limit_or(limit, 20),
            forall|i: int|
                0 <= i < r.len() ==> (#[trigger] r@[i]).school_id.names(Table::Schools, school_id@),
    {
        let keep = |a: &Announcement| -> (b: bool)
            ensures
                b == Self::published_by(school_id@)(*a),
            { a.school_id.is(Table::Schools, &school_id) && a.published };
        let precedes = |a: &Announcement, b: &Announcement| -> (r: bool)
            ensures
                r == Self::latest_first()(*a, *b),
            { a.created_at > b.created_at };
        let found = select_ordered(
            announcements,
            keep,
            precedes,
            Ghost(Self::published_by(school_id@)),
            Ghost(Self::latest_first()),
        );
        proof {
            law_numbers_rank(Self::latest_first(), |a: Announcement| -(a.created_at as int));
            lemma_limited_in_order(found@, limit_or(limit, 20), Self::latest_first());
        }
        capped(found, limit, 20)
    }

    /// Publishes an announcement.
    pub fn publish(&self, announcements: &mut Vec<Announcement>, announcement_id: String, now: Datetime)
        -> (r: Option<Announcement>)
        ensures
            final(announcements)@ == revise_first(
                old(announcements)@,
                keyed(Table::Announcements, announcement_id@),
                Self::released(now),
            ),
            r == revised_first(
                old(announcements)@,
                keyed(Table::Announcements, announcement_id@),
                Self::released(now),
            ),
            r is Some <==> holds(old(announcements)@, Table::Announcements, announcement_id@),
    {
        let change = |a: &Announcement| -> (n: Announcement)
            ensures
                n == Self::released(now)(*a),
            {
                let mut n = a.clone();
                n.published = true;
                n.published_at = Some(now);
                n.updated_at = now;
                n
            };
        rewrite_by_id(
            announcements,
            Table::Announcements,
            &announcement_id,
            change,
            Ghost(Self::released(now)),
        )
    }
}

/// The repository of messages.
pub struct MessageQ;

impl MessageQ {
    /// The messages to one user that the user has not read.
    pub open spec fn unread_by(user_id: Seq<char>) -> spec_fn(Message) -> bool {
        |m: Message| m.recipient_id.names(Table::Users, user_id) && !m.read
    }

    /// The messages that two users sent to each other.
    pub open spec fn between(user1_id: Seq<char>, user2_id: Seq<char>) -> spec_fn(Message) -> bool {
        |m: Message|
            (m.sender_id.names(Table::Users, user1_id) && m.recipient_id.names(
                Table::Users,
                user2_id,
            )) || (m.sender_id.names(Table::Users, user2_id) && m.recipient_id.names(
                Table::Users,
                user1_id,
            ))
    }

    /// The message that was sent later comes first.
    pub open spec fn latest_first() -> spec_fn(Message, Message) -> bool {
        |a: Message, b: Message| a.sent_at > b.sent_at
    }

    /// The message that was sent earlier comes first.
    pub open spec fn earliest_first() -> spec_fn(Message, Message) -> bool {
        |a: Message, b: Message| a.sent_at < b.sent_at
    }

    /// A message read at `now`.
    pub open spec fn opened(now: Datetime) -> spec_fn(Message) -> Message {
        |m: Message| Message { read: true, read_at: Some(now), ..m }
    }

    /// Files a message under `key`.
    pub fn send(&self, messages: &mut Vec<Message>, data: Message, key: String) -> (r: DbResult<
        Option<Message>,
    >)
        ensures
            files(
                old(messages)@,
                final(messages)@,
                data.filed(RecordId { table: Table::Messages, key }),
                r,
            ),
    {
        create(messages, data, Table::Messages, key)
    }

    /// Marks a message as read.
    pub fn mark_read(&self, messages: &mut Vec<Message>, message_id: String, now: Datetime) -> (r:
        Option<Message>)
        ensures
            final(messages)@ == revise_first(
                old(messages)@,
                keyed(Table::Messages, message_id@),
                Self::opened(now),
            ),
            r == revised_first(
                old(messages)@,
                keyed(Table::Messages, message_id@),
                Self::opened(now),
            ),
            r is Some <==> holds(old(messages)@, Table::Messages, message_id@),
    {
        let change = |m: &Message| -> (n: Message)
            ensures
                n == Self::opened(now)(*m),
            {
                let mut n = m.clone();
                n.read = true;
                n.read_at = Some(now);
                n
            };
        rewrite_by_id(messages, Table::Messages, &message_id, change, Ghost(Self::opened(now)))
    }

    /// The messages to a user that the user has not read, the latest first.
    pub fn get_unread(&self, messages: &Vec<Message>, user_id: String) -> (r: Vec<Message>)
        ensures
            r@ == ordered(messages@.filter(Self::unread_by(user_id@)), Self::latest_first()),
            in_order(r@, Self::latest_first()),
    {
        let keep = |m: &Message| -> (b: bool)
            ensures
                b == Self::unread_by(user_id@)(*m),
            { m.recipient_id.is(Table::Users, &user_id) && !m.read };
        let precedes = |a: &Message, b: &Message| -> (r: bool)
            ensures
                r == Self::latest_first()(*a, *b),
            { a.sent_at > b.sent_at };
        proof {
            law_numbers_rank(Self::latest_first(), |a: Message| -(a.sent_at as int));
        }
        select_ordered(
            messages,
            keep,
            precedes,
            Ghost(Self::unread_by(user_id@)),
            Ghost(Self::latest_first()),
        )
    }

    /// The messages that two users sent to each other, the earliest first.
    pub fn get_thread(&self, messages: &Vec<Message>, user1_id: String, user2_id: String) -> (r:
        Vec<Message>)
        ensures
            r@ == ordered(
                messages@.filter(Self::between(user1_id@, user2_id@)),
                Self::earliest_first(),
            ),
            in_order(r@, Self::earliest_first()),
    {
        let keep = |m: &Message| -> (b: bool)
            ensures
                b == Self::between(user1_id@, user2_id@)(*m),
            {
                (m.sender_id.is(Table::Users, &user1_id) && m.recipient_id.is(
                    Table::Users,
                    &user2_id,
                )) || (m.sender_id.is(Table::Users, &user2_id) && m.recipient_id.is(
                    Table::Users,
                    &user1_id,
                ))
            };
        let precedes = |a: &Message, b: &Message| -> (r: bool)
            ensures
                r == Self::earliest_first()(*a, *b),
            { a.sent_at < b.sent_at };
        proof {
            law_numbers_rank(Self::earliest_first(), |a: Message| a.sent_at as int);
        }
        select_ordered(
            messages,
            keep,
            precedes,
            Ghost(Self::between(user1_id@, user2_id@)),
            Ghost(Self::earliest_first()),
        )
    }

    /// How many messages to a user the user has not read.
    pub fn count_unread(&self, messages: &Vec<Message>, user_id: String) -> (r: u64)
        ensures
            r == messages@.filter(Self::unread_by(user_id@)).len(),
    {
        let keep = |m: &Message| -> (b: bool)
            ensures
                b == Self::unread_by(user_id@)(*m),
            { m.recipient_id.is(Table::Users, &user_id) && !m.read };
        count(messages, keep, Ghost(Self::unread_by(user_id@))) as u64
    }
}

/// The repository of events.
pub struct EventQ;

impl EventQ {
    /// The events of one school on the day `today` or later.
    pub open spec fn upcoming(school_id: Seq<char>, today: Datetime) -> spec_fn(Event) -> bool {
        |e: Event| e.school_id.names(Table::Schools, school_id) && e.event_date >= today
    }

    /// The earlier event comes first.
    pub open spec fn soonest_first() -> spec_fn(Event, Event) -> bool {
        |a: Event, b: Event| a.event_date < b.event_date
    }

    /// The answers to one event that are `response`.
    pub open spec fn answered(event_id: Seq<char>, response: RsvpResponse) -> spec_fn(EventRsvp)
        -> bool {
        |v: EventRsvp| v.event_id.names(Table::Events, event_id) && v.response == response
    }

    /// The row of one answer in a summary of answers: nothing where nobody gave it.
    pub open spec fn answer_row(rsvps: Seq<EventRsvp>, event_id: Seq<char>, response: RsvpResponse)
        -> Seq<(RsvpResponse, u64)> {
        let n = rsvps.filter(Self::answered(event_id, response)).len();
        if n > 0 {
            seq![(response, n as u64)]
        } else {
            Seq::empty()
        }
    }

    /// Files an event under `key`.
    pub fn create(&self, events: &mut Vec<Event>, data: Event, key: String) -> (r: DbResult<
        Option<Event>,
    >)
        ensures
            files(
                old(events)@,
                final(events)@,
                data.filed(RecordId { table: Table::Events, key }),
                r,
            ),
    {
        create(events, data, Table::Events, key)
    }

    /// The events of a school on the day `today` or later, the soonest first.
    pub fn get_upcoming(&self, events: &Vec<Event>, school_id: String, today: Datetime) -> (r: Vec<
        Event,
    >)
        ensures
            r@ == ordered(events@.filter(Self::upcoming(school_id@, today)), Self::soonest_first()),
            in_order(r@, Self::soonest_first()),
            forall|i: int|
                0 <= i < r.len() ==> (#[trigger] r@[i]).school_id.names(Table::Schools, school_id@),
    {
        let keep = |e: &Event| -> (b: bool)
            ensures
                b == Self::upcoming(school_id@, today)(*e),
            { e.school_id.is(Table::Schools, &school_id) && e.event_date >= today };
        let precedes = |a: &Event, b: &Event| -> (r: bool)
            ensures
                r == Self::soonest_first()(*a, *b),
            { a.event_date < b.event_date };
        proof {
            law_numbers_rank(Self::soonest_first(), |a: Event| a.event_date as int);
        }
        select_ordered(
            events,
            keep,
            precedes,
            Ghost(Self::upcoming(school_id@, today)),
            Ghost(Self::soonest_first()),
        )
    }

    /// Files an answer to an event under `key`.
    pub fn rsvp(&self, rsvps: &mut Vec<EventRsvp>, data: EventRsvp, key: String) -> (r: DbResult<
        Option<EventRsvp>,
    >)
        ensures
            files(
                old(rsvps)@,
                final(rsvps)@,
                data.filed(RecordId { table: Table::EventRsvps, key }),
                r,
            ),
    {
        create(rsvps, data, Table::EventRsvps, key)
    }

    /// How an event was answered: a row for each answer that anybody gave,
    /// in the order attending, not attending, maybe.
    pub fn get_rsvp_summary(&self, rsvps: &Vec<EventRsvp>, event_id: String) -> (r: Vec<
        (RsvpResponse, u64),
    >)
        ensures
            r@ == Self::answer_row(rsvps@, event_id@, RsvpResponse::Attending) + Self::answer_row(
                rsvps@,
                event_id@,
                RsvpResponse::NotAttending,
            ) + Self::answer_row(rsvps@, event_id@, RsvpResponse::Maybe),
    {
        let mut rows: Vec<(RsvpResponse, u64)> = Vec::new();
        let yes = |v: &EventRsvp| -> (b: bool)
            ensures
                b == Self::answered(event_id@, RsvpResponse::Attending)(*v),
            { v.event_id.is(Table::Events, &event_id) && v.response == RsvpResponse::Attending };
        let no = |v: &EventRsvp| -> (b: bool)
            ensures
                b == Self::answered(event_id@, RsvpResponse::NotAttending)(*v),
            { v.event_id.is(Table::Events, &event_id) && v.response == RsvpResponse::NotAttending };
        let maybe = |v: &EventRsvp| -> (b: bool)
            ensures
                b == Self::answered(event_id@, RsvpResponse::Maybe)(*v),
            { v.event_id.is(Table::Events, &event_id) && v.response == RsvpResponse::Maybe };
        let attending = count(rsvps, yes, Ghost(Self::answered(event_id@, RsvpResponse::Attending)));
        if attending > 0 {
            rows.push((RsvpResponse::Attending, attending as u64));
        }
        let ghost first = rows@;
        assert(first =~= Self::answer_row(rsvps@, event_id@, RsvpResponse::Attending));
        let declining = count(
            rsvps,
            no,
            Ghost(Self::answered(event_id@, RsvpResponse::NotAttending)),
        );
        if declining > 0 {
            rows.push((RsvpResponse::NotAttending, declining as u64));
        }
        let ghost second = rows@;
        assert(second =~= first + Self::answer_row(rsvps@, event_id@, RsvpResponse::NotAttending));
        let unsure = count(rsvps, maybe, Ghost(Self::answered(event_id@, RsvpResponse::Maybe)));
        if unsure > 0 {
            rows.push((RsvpResponse::Maybe, unsure as u64));
        }
        assert(rows@ =~= second + Self::answer_row(rsvps@, event_id@, RsvpResponse::Maybe));
        rows
    }
}

/// The repository of notifications.
pub struct NotificationQ;

impl NotificationQ {
    /// The notifications of one user that the user has not read.
    pub open spec fn unread_by(user_id: Seq<char>) -> spec_fn(Notification) -> bool {
        |n: Notification| n.user_id.names(Table::Users, user_id) && !n.read
    }

    /// The notification that was sent later comes first.
    pub open spec fn latest_first() -> spec_fn(Notification, Notification) -> bool {
        |a: Notification, b: Notification| a.sent_at > b.sent_at
    }

    /// A notification read at `now`.
    pub open spec fn opened(now: Datetime) -> spec_fn(Notification) -> Notification {
        |n: Notification| Notification { read: true, read_at: Some(now), ..n }
    }

    /// Files a notification under `key`.
    pub fn create(&self, notifications: &mut Vec<Notification>, data: Notification, key: String)
        -> (r: DbResult<Option<Notification>>)
        ensures
            files(
                old(notifications)@,
                final(notifications)@,
                data.filed(RecordId { table: Table::Notifications, key }),
                r,
            ),
    {
        create(notifications, data, Table::Notifications, key)
    }

    /// The notifications of a user that the user has not read, the latest first.
    pub fn get_unread(&self, notifications: &Vec<Notification>, user_id: String) -> (r: Vec<
        Notification,
    >)
        ensures
            r@ == ordered(notifications@.filter(Self::unread_by(user_id@)), Self::latest_first()),
            in_order(r@, Self::latest_first()),
    {
        let keep = |n: &Notification| -> (b: bool)
            ensures
                b == Self::unread_by(user_id@)(*n),
            { n.user_id.is(Table::Users, &user_id) && !n.read };
        let precedes = |a: &Notification, b: &Notification| -> (r: bool)
            ensures
                r == Self::latest_first()(*a, *b),
            { a.sent_at > b.sent_at };
        proof {
            law_numbers_rank(Self::latest_first(), |a: Notification| -(a.sent_at as int));
        }
        select_ordered(
            notifications,
            keep,
            precedes,
            Ghost(Self::unread_by(user_id@)),
            Ghost(Self::latest_first()),
        )
    }

    /// Marks a notification as read.
    pub fn mark_read(
        &self,
        notifications: &mut Vec<Notification>,
        notification_id: String,
        now: Datetime,
    ) -> (r: Option<Notification>)
        ensures
            final(notifications)@ == revise_first(
                old(notifications)@,
                keyed(Table::Notifications, notification_id@),
                Self::opened(now),
            ),
            r == revised_first(
                old(notifications)@,
                keyed(Table::Notifications, notification_id@),
                Self::opened(now),
            ),
            r is Some <==> holds(old(notifications)@, Table::Notifications, notification_id@),
    {
        let change = |n: &Notification| -> (m: Notification)
            ensures
                m == Self::opened(now)(*n),
            {
                let mut m = n.clone();
                m.read = true;
                m.read_at = Some(now);
                m
            };
        rewrite_by_id(
            notifications,
            Table::Notifications,
            &notification_id,
            change,
            Ghost(Self::opened(now)),
        )
    }

    /// Marks as read every notification of a user that the user has not
    /// read, and hands them back.
    pub fn mark_all_read(&self, notifications: &mut Vec<Notification>, user_id: String, now: Datetime)
        -> (r: Vec<Notification>)
        ensures
            final(notifications)@ == revise_all(
                old(notifications)@,
                Self::unread_by(user_id@),
                Self::opened(now),
            ),
            r@ == old(notifications)@.filter(Self::unread_by(user_id@)).map_values(
                Self::opened(now),
            ),
    {
        let keep = |n: &Notification| -> (b: bool)
            ensures
                b == Self::unread_by(user_id@)(*n),
            { n.user_id.is(Table::Users, &user_id) && !n.read };
        let change = |n: &Notification| -> (m: Notification)
            ensures
                m == Self::opened(now)(*n),
            {
                let mut m = n.clone();
                m.read = true;
                m.read_at = Some(now);
                m
            };
        rewrite_all(
            notifications,
            keep,
            change,
            Ghost(Self::unread_by(user_id@)),
            Ghost(Self::opened(now)),
        )
    }
}

/// The repository of the SMS log.
pub struct SmsLogQ;

impl SmsLogQ {
    /// The entries of one school.
    pub open spec fn of_school(school_id: Seq<char>) -> spec_fn(SmsLog) -> bool {
        |l: SmsLog| l.school_id.names(Table::Schools, school_id)
    }

    /// The SMS of one school that were sent from `month_start` on and
    /// before `now`, and that cost something.
    pub open spec fn charged(school_id: Seq<char>, month_start: Datetime, now: Datetime) -> spec_fn(
        SmsLog,
    ) -> bool {
        |l: SmsLog|
            l.school_id.names(Table::Schools, school_id) && l.cost is Some && (
            l.sent_at matches Some(at) && month_start <= at < now)
    }

    /// What an SMS cost; zero where the log does not say.
    pub open spec fn cost() -> spec_fn(SmsLog) -> int {
        |l: SmsLog|
            match l.cost {
                Some(c) => c as int,
                None => 0,
            }
    }

    /// The entry that was made later comes first.
    pub open spec fn latest_first() -> spec_fn(SmsLog, SmsLog) -> bool {
        |a: SmsLog, b: SmsLog| a.created_at > b.created_at
    }

    /// Files an entry under `key`.
    pub fn log(&self, sms: &mut Vec<SmsLog>, data: SmsLog, key: String) -> (r: DbResult<
        Option<SmsLog>,
    >)
        ensures
            files(old(sms)@, final(sms)@, data.filed(RecordId { table: Table::SmsLog, key }), r),
    {
        create(sms, data, Table::SmsLog, key)
    }

    /// What the SMS of a school have cost in the month that started at
    /// `month_start`, up to `now`; nothing where none was charged.
    pub fn get_monthly_cost(
        &self,
        sms: &Vec<SmsLog>,
        school_id: String,
        month_start: Datetime,
        now: Datetime,
    ) -> (r: Option<Total>)
        ensures
            r == (if sms@.filter(Self::charged(school_id@, month_start, now)).len() == 0 {
                None
            } else {
                Some(
                    total(sms@.filter(Self::charged(school_id@, month_start, now)), Self::cost())
                        as i128,
                )
            }),
    {
        let keep = |l: &SmsLog| -> (b: bool)
            ensures
                b == Self::charged(school_id@, month_start, now)(*l),
            {
                l.school_id.is(Table::Schools, &school_id) && l.cost.is_some() && match l.sent_at {
                    Some(at) => month_start <= at && at < now,
                    None => false,
                }
            };
        let value = |l: &SmsLog| -> (v: i64)
            ensures
                v == Self::cost()(*l),
            {
                match l.cost {
                    Some(c) => c,
                    None => 0,
                }
            };
        let (n, sum) = tally(
            sms,
            keep,
            value,
            Ghost(Self::charged(school_id@, month_start, now)),
            Ghost(Self::cost()),
        );
        if n == 0 {
            None
        } else {
            Some(sum)
        }
    }

    /// The latest entries of a school, the latest first: as many as
    /// `limit` says, 50 where it says nothing.
    pub fn get_by_school(&self, sms: &Vec<SmsLog>, school_id: String, limit: Option<u32>) -> (r:
        Vec<SmsLog>)
        ensures
            r@ == limited(
                ordered(sms@.filter(Self::of_school(school_id@)), Self::latest_first()),
                limit_or(limit, 50),
            ),
            in_order(r@, Self::latest_first()),
            r.len() <= limit_or(limit, 50),
            forall|i: int|
                0 <= i < r.len() ==> (#[trigger] r@[i]).school_id.names(Table::Schools, school_id@),
    {
        let keep = |l: &SmsLog| -> (b: bool)
            ensures
                b == Self::of_school(school_id@)(*l),
            { l.school_id.is(Table::Schools, &school_id) };
        let precedes = |a: &SmsLog, b: &SmsLog| -> (r: bool)
            ensures
                r == Self::latest_first()(*a, *b),
            { a.created_at > b.created_at };
        let found = select_ordered(
            sms,
            keep,
            precedes,
            Ghost(Self::of_school(school_id@)),
            Ghost(Self::latest_first()),
        );
        proof {
            law_numbers_rank(Self::latest_first(), |a: SmsLog| -(a.created_at as int));
            lemma_limited_in_order(found@, limit_or(limit, 50), Self::latest_first());
        }
        capped(found, limit, 50)
    }
}

} // verus!
