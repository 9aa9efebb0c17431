//! Charges, invoices, payments and reminders.

use vstd::prelude::*;
use crate::models::DeliveryStatus;
use crate::models::FeeFrequency;
use crate::models::FeeType;
use crate::models::InvoiceStatus;
use crate::models::PaymentMethod;
use crate::models::PaymentStatus;
use crate::models::ReminderType;
use crate::table::Record;
use crate::values::Datetime;
use crate::values::Decimal;
use crate::values::RecordId;

verus! {

/// A charge that a school raises, for a class level or for all.
#[derive(Debug)]
pub struct FeeStructure {
    pub id: Option<RecordId>,
    pub school_id: RecordId,
    pub fee_name: String,
    pub fee_type: FeeType,
    pub class_level: String,
    pub amount: Decimal,
    pub frequency: FeeFrequency,
    pub session_id: Option<RecordId>,
    pub is_mandatory: bool,
    pub created_at: Datetime,
    pub updated_at: Datetime,
}

impl Clone for FeeStructure {
    fn clone(&self) -> (r: Self)
        ensures
            r == *self,
    {
        FeeStructure {
            id: self.id.clone(),
            school_id: self.school_id.clone(),
            fee_name: self.fee_name.clone(),
            fee_type: self.fee_type,
            class_level: self.class_level.clone(),
            amount: self.amount,
            frequency: self.frequency,
            session_id: self.session_id.clone(),
            is_mandatory: self.is_mandatory,
            created_at: self.created_at,
            updated_at: self.updated_at,
        }
    }
}

impl Record for FeeStructure {
    open spec fn record_id(&self) -> Option<RecordId> {
        self.id
    }

    fn id(&self) -> (r: &Option<RecordId>) {
        &self.id
    }

    fn duplicate(&self) -> (r: Self) {
        self.clone()
    }

    open spec fn filed(self, id: RecordId) -> Self {
        FeeStructure { id: Some(id), ..self }
    }

    fn file_under(self, id: RecordId) -> (r: Self) {
        let mut r = self;
        r.id = Some(id);
        r
    }
}

/// What a student owes for a term: `balance` is what is still to pay.
#[derive(Debug)]
pub struct Invoice {
    pub id: Option<RecordId>,
    pub student_id: RecordId,
    pub school_id: RecordId,
    pub term_id: RecordId,
    pub invoice_number: String,
    pub total_amount: Decimal,
    pub amount_paid: Decimal,
    pub balance: Decimal,
    pub discount_amount: Decimal,
    pub discount_reason: Option<String>,
    pub due_date: Datetime,
    pub status: InvoiceStatus,
    pub generated_by: Option<RecordId>,
    pub generated_at: Datetime,
    pub created_at: Datetime,
    pub updated_at: Datetime,
}

impl Clone for Invoice {
    fn clone(&self) -> (r: Self)
        ensures
            r == *self,
    {
        Invoice {
            id: self.id.clone(),
            student_id: self.student_id.clone(),
            school_id: self.school_id.clone(),
            term_id: self.term_id.clone(),
            invoice_number: self.invoice_number.clone(),
            total_amount: self.total_amount,
            amount_paid: self.amount_paid,
            balance: self.balance,
            discount_amount: self.discount_amount,
            discount_reason: self.discount_reason.clone(),
            due_date: self.due_date,
            status: self.status,
            generated_by: self.generated_by.clone(),
            generated_at: self.generated_at,
            created_at: self.created_at,
            updated_at: self.updated_at,
        }
    }
}

impl Record for Invoice {
    open spec fn record_id(&self) -> Option<RecordId> {
        self.id
    }

    fn id(&self) -> (r: &Option<RecordId>) {
        &self.id
    }

    fn duplicate(&self) -> (r: Self) {
        self.clone()
    }

    open spec fn filed(self, id: RecordId) -> Self {
        Invoice { id: Some(id), ..self }
    }

    fn file_under(self, id: RecordId) -> (r: Self) {
        let mut r = self;
        r.id = Some(id);
        r
    }
}

/// One line of an invoice.
#[derive(Debug)]
pub struct InvoiceItem {
    pub id: Option<RecordId>,
    pub invoice_id: RecordId,
    pub fee_structure_id: Option<RecordId>,
    pub description: Option<String>,
    pub amount: Decimal,
    pub created_at: Datetime,
}

impl Clone for InvoiceItem {
    fn clone(&self) -> (r: Self)
        ensures
            r == *self,
    {
        InvoiceItem {
            id: self.id.clone(),
            invoice_id: self.invoice_id.clone(),
            fee_structure_id: self.fee_structure_id.clone(),
            description: self.description.clone(),
            amount: self.amount,
            created_at: self.created_at,
        }
    }
}

impl Record for InvoiceItem {
    open spec fn record_id(&self) -> Option<RecordId> {
        self.id
    }

    fn id(&self) -> (r: &Option<RecordId>) {
        &self.id
    }

    fn duplicate(&self) -> (r: Self) {
        self.clone()
    }

    open spec fn filed(self, id: RecordId) -> Self {
        InvoiceItem { id: Some(id), ..self }
    }

    fn file_under(self, id: RecordId) -> (r: Self) {
        let mut r = self;
        r.id = Some(id);
        r
    }
}

/// A payment received against an invoice.
#[derive(Debug)]
pub struct Payment {
    pub id: Option<RecordId>,
    pub invoice_id: RecordId,
    pub student_id: RecordId,
    pub receipt_number: String,
    pub amount_paid: Decimal,
    pub payment_method: PaymentMethod,
    pub payment_reference: Option<String>,
    pub payment_date: Datetime,
    pub paid_by: Option<String>,
    pub received_by: Option<RecordId>,
    pub transaction_fee: Decimal,
    pub net_amount: Option<Decimal>,
    pub status: PaymentStatus,
    pub receipt_url: Option<String>,
    pub notes: Option<String>,
    pub created_at: Datetime,
    pub updated_at: Datetime,
}

impl Clone for Payment {
    fn clone(&self) -> (r: Self)
        ensures
            r == *self,
    {
        Payment {
            id: self.id.clone(),
            invoice_id: self.invoice_id.clone(),
            student_id: self.student_id.clone(),
            receipt_number: self.receipt_number.clone(),
            amount_paid: self.amount_paid,
            payment_method: self.payment_method,
            payment_reference: self.payment_reference.clone(),
            payment_date: self.payment_date,
            paid_by: self.paid_by.clone(),
            received_by: self.received_by.clone(),
            transaction_fee: self.transaction_fee,
            net_amount: self.net_amount,
            status: self.status,
            receipt_url: self.receipt_url.clone(),
            notes: self.notes.clone(),
            created_at: self.created_at,
            updated_at: self.updated_at,
        }
    }
}

impl Record for Payment {
    open spec fn record_id(&self) -> Option<RecordId> {
        self.id
    }

    fn id(&self) -> (r: &Option<RecordId>) {
        &self.id
    }

    fn duplicate(&self) -> (r: Self) {
        self.clone()
    }

    open spec fn filed(self, id: RecordId) -> Self {
        Payment { id: Some(id), ..self }
    }

    fn file_under(self, id: RecordId) -> (r: Self) {
        let mut r = self;
        r.id = Some(id);
        r
    }
}

/// A reminder sent to a parent about an invoice.
#[derive(Debug)]
pub struct PaymentReminder {
    pub id: Option<RecordId>,
    pub invoice_id: RecordId,
    pub parent_id: RecordId,
    pub reminder_type: ReminderType,
    pub message: String,
    pub sent_at: Datetime,
    pub delivery_status: DeliveryStatus,
    pub delivered_at: Option<Datetime>,
    pub created_at: Datetime,
}

impl Clone for PaymentReminder {
    fn clone(&self) -> (r: Self)
        ensures
            r == *self,
    {
        PaymentReminder {
            id: self.id.clone(),
            invoice_id: self.invoice_id.clone(),
            parent_id: self.parent_id.clone(),
            reminder_type: self.reminder_type,
            message: self.message.clone(),
            sent_at: self.sent_at,
            delivery_status: self.delivery_status,
            delivered_at: self.delivered_at,
            created_at: self.created_at,
        }
    }
}

impl Record for PaymentReminder {
    open spec fn record_id(&self) -> Option<RecordId> {
        self.id
    }

    fn id(&self) -> (r: &Option<RecordId>) {
        &self.id
    }

    fn duplicate(&self) -> (r: Self) {
        self.clone()
    }

    open spec fn filed(self, id: RecordId) -> Self {
        PaymentReminder { id: Some(id), ..self }
    }

    fn file_under(self, id: RecordId) -> (r: Self) {
        let mut r = self;
        r.id = Some(id);
        r
    }
}

} // verus!
