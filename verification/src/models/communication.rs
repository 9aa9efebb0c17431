//! Announcements, messages and events.

use vstd::prelude::*;
use crate::models::Priority;
use crate::models::RsvpResponse;
use crate::models::TargetAudience;
use crate::table::Record;
use crate::values::Datetime;
use crate::values::RecordId;

verus! {

/// An announcement of a school.
#[derive(Debug)]
pub struct Announcement {
    pub id: Option<RecordId>,
    pub school_id: RecordId,
    pub title: String,
    pub message: String,
    pub target_audience: TargetAudience,
    pub class_id: Option<RecordId>,
    pub priority: Priority,
    pub send_sms: bool,
    pub send_email: bool,
    pub send_push: bool,
    pub published: bool,
    pub published_at: Option<Datetime>,
    pub created_by: Option<RecordId>,
    pub created_at: Datetime,
    pub updated_at: Datetime,
}

impl Clone for Announcement {
    fn clone(&self) -> (r: Self)
        ensures
            r == *self,
    {
        Announcement {
            id: self.id.clone(),
            school_id: self.school_id.clone(),
            title: self.title.clone(),
            message: self.message.clone(),
            target_audience: self.target_audience,
            class_id: self.class_id.clone(),
            priority: self.priority,
            send_sms: self.send_sms,
            send_email: self.send_email,
            send_push: self.send_push,
            published: self.published,
            published_at: self.published_at,
            created_by: self.created_by.clone(),
            created_at: self.created_at,
            updated_at: self.updated_at,
        }
    }
}

impl Record for Announcement {
    open spec fn record_id(&self) -> Option<RecordId> {
        self.id
    }

    fn id(&self) -> (r: &Option<RecordId>) {
        &self.id
    }

    fn duplicate(&self) -> (r: Self) {
        self.clone()
    }

    open spec fn filed(self, id: RecordId) -> Self {
        Announcement { id: Some(id), ..self }
    }

    fn file_under(self, id: RecordId) -> (r: Self) {
        let mut r = self;
        r.id = Some(id);
        r
    }
}

/// A message from one user to another.
#[derive(Debug)]
pub struct Message {
    pub id: Option<RecordId>,
    pub school_id: RecordId,
    pub sender_id: RecordId,
    pub recipient_id: RecordId,
    pub subject: Option<String>,
    pub message_body: String,
    pub read: bool,
    pub read_at: Option<Datetime>,
    pub replied: bool,
    pub parent_message_id: Option<RecordId>,
    pub sent_at: Datetime,
    pub created_at: Datetime,
}

impl Clone for Message {
    fn clone(&self) -> (r: Self)
        ensures
            r == *self,
    {
        Message {
            id: self.id.clone(),
            school_id: self.school_id.clone(),
            sender_id: self.sender_id.clone(),
            recipient_id: self.recipient_id.clone(),
            subject: self.subject.clone(),
            message_body: self.message_body.clone(),
            read: self.read,
            read_at: self.read_at,
            replied: self.replied,
            parent_message_id: self.parent_message_id.clone(),
            sent_at: self.sent_at,
            created_at: self.created_at,
        }
    }
}

impl Record for Message {
    open spec fn record_id(&self) -> Option<RecordId> {
        self.id
    }

    fn id(&self) -> (r: &Option<RecordId>) {
        &self.id
    }

    fn duplicate(&self) -> (r: Self) {
        self.clone()
    }

    open spec fn filed(self, id: RecordId) -> Self {
        Message { id: Some(id), ..self }
    }

    fn file_under(self, id: RecordId) -> (r: Self) {
        let mut r = self;
        r.id = Some(id);
        r
    }
}

/// An event in a school's calendar.
#[derive(Debug)]
pub struct Event {
    pub id: Option<RecordId>,
    pub school_id: RecordId,
    pub event_name: String,
    pub event_description: Option<String>,
    pub event_date: Datetime,
    pub event_time: Option<String>,
    pub event_location: Option<String>,
    pub target_audience: TargetAudience,
    pub class_id: Option<RecordId>,
    pub requires_rsvp: bool,
    pub rsvp_deadline: Option<Datetime>,
    pub created_by: Option<RecordId>,
    pub created_at: Datetime,
    pub updated_at: Datetime,
}

impl Clone for Event {
    fn clone(&self) -> (r: Self)
        ensures
            r == *self,
    {
        Event {
            id: self.id.clone(),
            school_id: self.school_id.clone(),
            event_name: self.event_name.clone(),
            event_description: self.event_description.clone(),
            event_date: self.event_date,
            event_time: self.event_time.clone(),
            event_location: self.event_location.clone(),
            target_audience: self.target_audience,
            class_id: self.class_id.clone(),
            requires_rsvp: self.requires_rsvp,
            rsvp_deadline: self.rsvp_deadline,
            created_by: self.created_by.clone(),
            created_at: self.created_at,
            updated_at: self.updated_at,
        }
    }
}

impl Record for Event {
    open spec fn record_id(&self) -> Option<RecordId> {
        self.id
    }

    fn id(&self) -> (r: &Option<RecordId>) {
        &self.id
    }

    fn duplicate(&self) -> (r: Self) {
        self.clone()
    }

    open spec fn filed(self, id: RecordId) -> Self {
        Event { id: Some(id), ..self }
    }

    fn file_under(self, id: RecordId) -> (r: Self) {
        let mut r = self;
        r.id = Some(id);
        r
    }
}

/// A user's answer to an event.
#[derive(Debug)]
pub struct EventRsvp {
    pub id: Option<RecordId>,
    pub event_id: RecordId,
    pub user_id: RecordId,
    pub student_id: Option<RecordId>,
    pub response: RsvpResponse,
    pub number_of_guests: i32,
    pub responded_at: Datetime,
    pub created_at: Datetime,
}

impl Clone for EventRsvp {
    fn clone(&self) -> (r: Self)
        ensures
            r == *self,
    {
        EventRsvp {
            id: self.id.clone(),
            event_id: self.event_id.clone(),
            user_id: self.user_id.clone(),
            student_id: self.student_id.clone(),
            response: self.response,
            number_of_guests: self.number_of_guests,
            responded_at: self.responded_at,
            created_at: self.created_at,
        }
    }
}

impl Record for EventRsvp {
    open spec fn record_id(&self) -> Option<RecordId> {
        self.id
    }

    fn id(&self) -> (r: &Option<RecordId>) {
        &self.id
    }

    fn duplicate(&self) -> (r: Self) {
        self.clone()
    }

    open spec fn filed(self, id: RecordId) -> Self {
        EventRsvp { id: Some(id), ..self }
    }

    fn file_under(self, id: RecordId) -> (r: Self) {
        let mut r = self;
        r.id = Some(id);
        r
    }
}

} // verus!
