//! The repositories: one for each family of records.

pub mod academic;
pub mod assessment;
pub mod attendance;
pub mod auth;
pub mod bulk;
pub mod communication;
pub mod fee;
pub mod parent;
pub mod school;
pub mod student;
pub mod system;
pub mod user;

pub use academic::AcademicSessionQ;
pub use academic::ClassQ;
pub use academic::ClassSubjectQ;
pub use academic::SubjectQ;
pub use academic::TermQ;
pub use assessment::AssessmentQ;
pub use assessment::GradingSchemeQ;
pub use assessment::ReportCardQ;
pub use assessment::StudentScoreQ;
pub use attendance::AttendanceQ;
pub use auth::AuthQ;
pub use attendance::AttendanceSummaryQ;
pub use bulk::BulkQ;
pub use communication::AnnouncementQ;
pub use communication::EventQ;
pub use communication::MessageQ;
pub use communication::NotificationQ;
pub use communication::SmsLogQ;
pub use fee::FeeStructureQ;
pub use fee::InvoiceQ;
pub use fee::PaymentQ;
pub use fee::PaymentReminderQ;
pub use school::SchoolQ;
pub use student::ParentQ;
pub use student::StudentQ;
pub use system::ActivityLogQ;
pub use system::AnalyticsQ;
pub use system::ReportCardTemplateQ;
pub use system::SchoolSettingQ;
pub use user::UserQ;
