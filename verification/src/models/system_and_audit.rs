//! The audit trail, notifications and the SMS log.

use vstd::prelude::*;
use crate::models::ActionType;
use crate::models::DeliveryStatus;
use crate::models::NotificationType;
use crate::models::SmsType;
use crate::table::Record;
use crate::values::Datetime;
use crate::values::Decimal;
use crate::values::RecordId;

verus! {

/// One entry of the audit trail.
#[derive(Debug)]
pub struct ActivityLog {
    pub id: Option<RecordId>,
    pub school_id: RecordId,
    pub user_id: Option<RecordId>,
    pub action: ActionType,
    pub entity_type: Option<String>,
    pub entity_id: Option<String>,
    pub description: Option<String>,
    pub ip_address: Option<String>,
    pub metadata: Option<String>,
    pub created_at: Datetime,
}

impl Clone for ActivityLog {
    fn clone(&self) -> (r: Self)
        ensures
            r == *self,
    {
        ActivityLog {
            id: self.id.clone(),
            school_id: self.school_id.clone(),
            user_id: self.user_id.clone(),
            action: self.action,
            entity_type: self.entity_type.clone(),
            entity_id: self.entity_id.clone(),
            description: self.description.clone(),
            ip_address: self.ip_address.clone(),
            metadata: self.metadata.clone(),
            created_at: self.created_at,
        }
    }
}

impl Record for ActivityLog {
    open spec fn record_id(&self) -> Option<RecordId> {
        self.id
    }

    fn id(&self) -> (r: &Option<RecordId>) {
        &self.id
    }

    fn duplicate(&self) -> (r: Self) {
        self.clone()
    }

    open spec fn filed(self, id: RecordId) -> Self {
        ActivityLog { id: Some(id), ..self }
    }

    fn file_under(self, id: RecordId) -> (r: Self) {
        let mut r = self;
        r.id = Some(id);
        r
    }
}

/// A notification shown to a user.
#[derive(Debug)]
pub struct Notification {
    pub id: Option<RecordId>,
    pub user_id: RecordId,
    pub notification_type: NotificationType,
    pub title: String,
    pub message: String,
    pub link_url: Option<String>,
    pub read: bool,
    pub read_at: Option<Datetime>,
    pub sent_at: Datetime,
    pub created_at: Datetime,
}

impl Clone for Notification {
    fn clone(&self) -> (r: Self)
        ensures
            r == *self,
    {
        Notification {
            id: self.id.clone(),
            user_id: self.user_id.clone(),
            notification_type: self.notification_type,
            title: self.title.clone(),
            message: self.message.clone(),
            link_url: self.link_url.clone(),
            read: self.read,
            read_at: self.read_at,
            sent_at: self.sent_at,
            created_at: self.created_at,
        }
    }
}

impl Record for Notification {
    open spec fn record_id(&self) -> Option<RecordId> {
        self.id
    }

    fn id(&self) -> (r: &Option<RecordId>) {
        &self.id
    }

    fn duplicate(&self) -> (r: Self) {
        self.clone()
    }

    open spec fn filed(self, id: RecordId) -> Self {
        Notification { id: Some(id), ..self }
    }

    fn file_under(self, id: RecordId) -> (r: Self) {
        let mut r = self;
        r.id = Some(id);
        r
    }
}

/// An SMS handed to a provider, and what became of it.
#[derive(Debug)]
pub struct SmsLog {
    pub id: Option<RecordId>,
    pub school_id: RecordId,
    pub recipient_phone: String,
    pub recipient_user_id: Option<RecordId>,
    pub message: String,
    pub sms_type: SmsType,
    pub provider: Option<String>,
    pub provider_message_id: Option<String>,
    pub status: DeliveryStatus,
    pub cost: Option<Decimal>,
    pub sent_at: Option<Datetime>,
    pub delivered_at: Option<Datetime>,
    pub created_at: Datetime,
}

impl Clone for SmsLog {
    fn clone(&self) -> (r: Self)
        ensures
            r == *self,
    {
        SmsLog {
            id: self.id.clone(),
            school_id: self.school_id.clone(),
            recipient_phone: self.recipient_phone.clone(),
            recipient_user_id: self.recipient_user_id.clone(),
            message: self.message.clone(),
            sms_type: self.sms_type,
            provider: self.provider.clone(),
            provider_message_id: self.provider_message_id.clone(),
            status: self.status,
            cost: self.cost,
            sent_at: self.sent_at,
            delivered_at: self.delivered_at,
            created_at: self.created_at,
        }
    }
}

impl Record for SmsLog {
    open spec fn record_id(&self) -> Option<RecordId> {
        self.id
    }

    fn id(&self) -> (r: &Option<RecordId>) {
        &self.id
    }

    fn duplicate(&self) -> (r: Self) {
        self.clone()
    }

    open spec fn filed(self, id: RecordId) -> Self {
        SmsLog { id: Some(id), ..self }
    }

    fn file_under(self, id: RecordId) -> (r: Self) {
        let mut r = self;
        r.id = Some(id);
        r
    }
}

} // verus!
