//! What callers hand over to have a record made.

use vstd::prelude::*;
use crate::models::AttendanceStatus;
use crate::models::Gender;
use crate::models::PaymentMethod;
use crate::models::SubscriptionPlan;
use crate::models::UserType;
use crate::values::Datetime;
use crate::values::Decimal;
use crate::values::RecordId;

verus! {

/// What is asked of whoever registers a school.
#[derive(Debug)]
pub struct CreateSchoolDto {
    pub school_name: String,
    pub school_address: Option<String>,
    pub school_phone: Option<String>,
    pub school_email: Option<String>,
    pub subscription_plan: SubscriptionPlan,
}

impl Clone for CreateSchoolDto {
    fn clone(&self) -> (r: Self)
        ensures
            r == *self,
    {
        CreateSchoolDto {
            school_name: self.school_name.clone(),
            school_address: self.school_address.clone(),
            school_phone: self.school_phone.clone(),
            school_email: self.school_email.clone(),
            subscription_plan: self.subscription_plan,
        }
    }
}

/// What is asked of whoever registers a user.
#[derive(Debug)]
pub struct CreateUserDto {
    pub school_id: RecordId,
    pub user_type: UserType,
    pub first_name: String,
    pub last_name: String,
    pub email: Option<String>,
    pub phone_number: Option<String>,
    pub password: String,
}

impl Clone for CreateUserDto {
    fn clone(&self) -> (r: Self)
        ensures
            r == *self,
    {
        CreateUserDto {
            school_id: self.school_id.clone(),
            user_type: self.user_type,
            first_name: self.first_name.clone(),
            last_name: self.last_name.clone(),
            email: self.email.clone(),
            phone_number: self.phone_number.clone(),
            password: self.password.clone(),
        }
    }
}

/// What is asked of whoever admits a student.
#[derive(Debug)]
pub struct CreateStudentDto {
    pub school_id: RecordId,
    pub admission_number: String,
    pub first_name: String,
    pub middle_name: Option<String>,
    pub last_name: String,
    pub date_of_birth: Datetime,
    pub gender: Gender,
    pub address: Option<String>,
    pub current_class_id: Option<RecordId>,
}

impl Clone for CreateStudentDto {
    fn clone(&self) -> (r: Self)
        ensures
            r == *self,
    {
        CreateStudentDto {
            school_id: self.school_id.clone(),
            admission_number: self.admission_number.clone(),
            first_name: self.first_name.clone(),
            middle_name: self.middle_name.clone(),
            last_name: self.last_name.clone(),
            date_of_birth: self.date_of_birth,
            gender: self.gender,
            address: self.address.clone(),
            current_class_id: self.current_class_id.clone(),
        }
    }
}

/// What is asked of whoever marks a student's attendance.
#[derive(Debug)]
pub struct MarkAttendanceDto {
    pub student_id: RecordId,
    pub class_id: RecordId,
    pub date: Datetime,
    pub status: AttendanceStatus,
    pub arrival_time: Option<String>,
    pub reason: Option<String>,
}

impl Clone for MarkAttendanceDto {
    fn clone(&self) -> (r: Self)
        ensures
            r == *self,
    {
        MarkAttendanceDto {
            student_id: self.student_id.clone(),
            class_id: self.class_id.clone(),
            date: self.date,
            status: self.status,
            arrival_time: self.arrival_time.clone(),
            reason: self.reason.clone(),
        }
    }
}

/// What is asked of whoever enters a score.
#[derive(Debug)]
pub struct EnterScoreDto {
    pub assessment_id: RecordId,
    pub student_id: RecordId,
    pub score_obtained: Decimal,
    pub remarks: Option<String>,
}

impl Clone for EnterScoreDto {
    fn clone(&self) -> (r: Self)
        ensures
            r == *self,
    {
        EnterScoreDto {
            assessment_id: self.assessment_id.clone(),
            student_id: self.student_id.clone(),
            score_obtained: self.score_obtained,
            remarks: self.remarks.clone(),
        }
    }
}

/// What is asked of whoever records a payment.
#[derive(Debug)]
pub struct RecordPaymentDto {
    pub invoice_id: RecordId,
    pub student_id: RecordId,
    pub amount_paid: Decimal,
    pub payment_method: PaymentMethod,
    pub payment_reference: Option<String>,
    pub paid_by: Option<String>,
}

impl Clone for RecordPaymentDto {
    fn clone(&self) -> (r: Self)
        ensures
            r == *self,
    {
        RecordPaymentDto {
            invoice_id: self.invoice_id.clone(),
            student_id: self.student_id.clone(),
            amount_paid: self.amount_paid,
            payment_method: self.payment_method,
            payment_reference: self.payment_reference.clone(),
            paid_by: self.paid_by.clone(),
        }
    }
}

} // verus!
