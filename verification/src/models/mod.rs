//! The records of the store and the values that their fields range over.

use vstd::prelude::*;
use crate::models::academic::Class;
use crate::models::academic::Subject;
use crate::models::fee_management::Invoice;
use crate::table::Record;
use crate::text::str_eq;
use crate::values::Datetime;
use crate::values::RecordId;

pub mod academic;
pub mod assessments_nd_grading;
pub mod attendance;
pub mod communication;
pub mod fee_management;
pub mod settings_and_configuration;
pub mod system_and_audit;

verus! {

/// The plan a school subscribes to.
#[derive(Debug, Clone, Copy, PartialEq, Eq, Structural)]
pub enum SubscriptionPlan {
    Starter,
    Basic,
    Standard,
    Premium,
    Enterprise,
}

impl SubscriptionPlan {
    /// The name under which the store keeps the value, and by which it sorts.
    pub open spec fn name(&self) -> Seq<char> {
        match self {
            SubscriptionPlan::Starter => "starter"@,
            SubscriptionPlan::Basic => "basic"@,
            SubscriptionPlan::Standard => "standard"@,
            SubscriptionPlan::Premium => "premium"@,
            SubscriptionPlan::Enterprise => "enterprise"@,
        }
    }

    /// The name under which the store keeps the value.
    pub fn as_str(&self) -> (r: &'static str)
        ensures
            r@ == self.name(),
    {
        match self {
            SubscriptionPlan::Starter => "starter",
            SubscriptionPlan::Basic => "basic",
            SubscriptionPlan::Standard => "standard",
            SubscriptionPlan::Premium => "premium",
            SubscriptionPlan::Enterprise => "enterprise",
        }
    }

    /// The value that the store keeps under a name, if it keeps one under it.
    pub fn from_name(name: &str) -> (r: Option<Self>)
        ensures
            match r {
                Some(v) => v.name() == name@,
                None => forall|v: Self| v.name() != name@,
            },
    {
        if str_eq(name, "starter") {
            Some(SubscriptionPlan::Starter)
        } else if str_eq(name, "basic") {
            Some(SubscriptionPlan::Basic)
        } else if str_eq(name, "standard") {
            Some(SubscriptionPlan::Standard)
        } else if str_eq(name, "premium") {
            Some(SubscriptionPlan::Premium)
        } else if str_eq(name, "enterprise") {
            Some(SubscriptionPlan::Enterprise)
        } else {
            None
        }
    }

    /// No two values are kept under one name.
    pub proof fn law_names_differ(a: Self, b: Self)
        requires
            a.name() == b.name(),
        ensures
            a == b,
    {
        reveal_strlit("starter");
        reveal_strlit("basic");
        reveal_strlit("standard");
        reveal_strlit("premium");
        reveal_strlit("enterprise");
        assert(SubscriptionPlan::Starter.name().len() == 7
            && SubscriptionPlan::Starter.name()[0] == 's');
        assert(SubscriptionPlan::Basic.name().len() == 5
            && SubscriptionPlan::Basic.name()[0] == 'b');
        assert(SubscriptionPlan::Standard.name().len() == 8
            && SubscriptionPlan::Standard.name()[0] == 's');
        assert(SubscriptionPlan::Premium.name().len() == 7
            && SubscriptionPlan::Premium.name()[0] == 'p');
        assert(SubscriptionPlan::Enterprise.name().len() == 10
            && SubscriptionPlan::Enterprise.name()[0] == 'e');
    }
}

/// Where a school's subscription stands.
#[derive(Debug, Clone, Copy, PartialEq, Eq, Structural)]
pub enum SubscriptionStatus {
    Active,
    Trial,
    Expired,
    Cancelled,
}

impl SubscriptionStatus {
    /// The name under which the store keeps the value, and by which it sorts.
    pub open spec fn name(&self) -> Seq<char> {
        match self {
            SubscriptionStatus::Active => "active"@,
            SubscriptionStatus::Trial => "trial"@,
            SubscriptionStatus::Expired => "expired"@,
            SubscriptionStatus::Cancelled => "cancelled"@,
        }
    }

    /// The name under which the store keeps the value.
    pub fn as_str(&self) -> (r: &'static str)
        ensures
            r@ == self.name(),
    {
        match self {
            SubscriptionStatus::Active => "active",
            SubscriptionStatus::Trial => "trial",
            SubscriptionStatus::Expired => "expired",
            SubscriptionStatus::Cancelled => "cancelled",
        }
    }

    /// The value that the store keeps under a name, if it keeps one under it.
    pub fn from_name(name: &str) -> (r: Option<Self>)
        ensures
            match r {
                Some(v) => v.name() == name@,
                None => forall|v: Self| v.name() != name@,
            },
    {
        if str_eq(name, "active") {
            Some(SubscriptionStatus::Active)
        } else if str_eq(name, "trial") {
            Some(SubscriptionStatus::Trial)
        } else if str_eq(name, "expired") {
            Some(SubscriptionStatus::Expired)
        } else if str_eq(name, "cancelled") {
            Some(SubscriptionStatus::Cancelled)
        } else {
            None
        }
    }

    /// No two values are kept under one name.
    pub proof fn law_names_differ(a: Self, b: Self)
        requires
            a.name() == b.name(),
        ensures
            a == b,
    {
        reveal_strlit("active");
        reveal_strlit("trial");
        reveal_strlit("expired");
        reveal_strlit("cancelled");
        assert(SubscriptionStatus::Active.name().len() == 6);
        assert(SubscriptionStatus::Trial.name().len() == 5);
        assert(SubscriptionStatus::Expired.name().len() == 7);
        assert(SubscriptionStatus::Cancelled.name().len() == 9);
    }
}

/// The role of a user.
#[derive(Debug, Clone, Copy, PartialEq, Eq, Structural)]
pub enum UserType {
    SuperAdmin,
    Admin,
    Teacher,
    Accountant,
    Parent,
    Student,
}

impl UserType {
    /// The name under which the store keeps the value, and by which it sorts.
    pub open spec fn name(&self) -> Seq<char> {
        match self {
            UserType::SuperAdmin => "super_admin"@,
            UserType::Admin => "admin"@,
            UserType::Teacher => "teacher"@,
            UserType::Accountant => "accountant"@,
            UserType::Parent => "parent"@,
            UserType::Student => "student"@,
        }
    }

    /// The name under which the store keeps the value.
    pub fn as_str(&self) -> (r: &'static str)
        ensures
            r@ == self.name(),
    {
        match self {
            UserType::SuperAdmin => "super_admin",
            UserType::Admin => "admin",
            UserType::Teacher => "teacher",
            UserType::Accountant => "accountant",
            UserType::Parent => "parent",
            UserType::Student => "student",
        }
    }

    /// The value that the store keeps under a name, if it keeps one under it.
    pub fn from_name(name: &str) -> (r: Option<Self>)
        ensures
            match r {
                Some(v) => v.name() == name@,
                None => forall|v: Self| v.name() != name@,
            },
    {
        if str_eq(name, "super_admin") {
            Some(UserType::SuperAdmin)
        } else if str_eq(name, "admin") {
            Some(UserType::Admin)
        } else if str_eq(name, "teacher") {
            Some(UserType::Teacher)
        } else if str_eq(name, "accountant") {
            Some(UserType::Accountant)
        } else if str_eq(name, "parent") {
            Some(UserType::Parent)
        } else if str_eq(name, "student") {
            Some(UserType::Student)
        } else {
            None
        }
    }

    /// No two values are kept under one name.
    pub proof fn law_names_differ(a: Self, b: Self)
        requires
            a.name() == b.name(),
        ensures
            a == b,
    {
        reveal_strlit("super_admin");
        reveal_strlit("admin");
        reveal_strlit("teacher");
        reveal_strlit("accountant");
        reveal_strlit("parent");
        reveal_strlit("student");
        assert(UserType::SuperAdmin.name().len() == 11
            && UserType::SuperAdmin.name()[0] == 's');
        assert(UserType::Admin.name().len() == 5
            && UserType::Admin.name()[0] == 'a');
        assert(UserType::Teacher.name().len() == 7
            && UserType::Teacher.name()[0] == 't');
        assert(UserType::Accountant.name().len() == 10
            && UserType::Accountant.name()[0] == 'a');
        assert(UserType::Parent.name().len() == 6
            && UserType::Parent.name()[0] == 'p');
        assert(UserType::Student.name().len() == 7
            && UserType::Student.name()[0] == 's');
    }
}

/// Whether a user may sign in.
#[derive(Debug, Clone, Copy, PartialEq, Eq, Structural)]
pub enum UserStatus {
    Active,
    Suspended,
    Inactive,
}

impl UserStatus {
    /// The name under which the store keeps the value, and by which it sorts.
    pub open spec fn name(&self) -> Seq<char> {
        match self {
            UserStatus::Active => "active"@,
            UserStatus::Suspended => "suspended"@,
            UserStatus::Inactive => "inactive"@,
        }
    }

    /// The name under which the store keeps the value.
    pub fn as_str(&self) -> (r: &'static str)
        ensures
            r@ == self.name(),
    {
        match self {
            UserStatus::Active => "active",
            UserStatus::Suspended => "suspended",
            UserStatus::Inactive => "inactive",
        }
    }

    /// The value that the store keeps under a name, if it keeps one under it.
    pub fn from_name(name: &str) -> (r: Option<Self>)
        ensures
            match r {
                Some(v) => v.name() == name@,
                None => forall|v: Self| v.name() != name@,
            },
    {
        if str_eq(name, "active") {
            Some(UserStatus::Active)
        } else if str_eq(name, "suspended") {
            Some(UserStatus::Suspended)
        } else if str_eq(name, "inactive") {
            Some(UserStatus::Inactive)
        } else {
            None
        }
    }

    /// No two values are kept under one name.
    pub proof fn law_names_differ(a: Self, b: Self)
        requires
            a.name() == b.name(),
        ensures
            a == b,
    {
        reveal_strlit("active");
        reveal_strlit("suspended");
        reveal_strlit("inactive");
        assert(UserStatus::Active.name().len() == 6);
        assert(UserStatus::Suspended.name().len() == 9);
        assert(UserStatus::Inactive.name().len() == 8);
    }
}

/// The gender recorded for a student.
#[derive(Debug, Clone, Copy, PartialEq, Eq, Structural)]
pub enum Gender {
    Male,
    Female,
}

impl Gender {
    /// The name under which the store keeps the value, and by which it sorts.
    pub open spec fn name(&self) -> Seq<char> {
        match self {
            Gender::Male => "male"@,
            Gender::Female => "female"@,
        }
    }

    /// The name under which the store keeps the value.
    pub fn as_str(&self) -> (r: &'static str)
        ensures
            r@ == self.name(),
    {
        match self {
            Gender::Male => "male",
            Gender::Female => "female",
        }
    }

    /// The value that the store keeps under a name, if it keeps one under it.
    pub fn from_name(name: &str) -> (r: Option<Self>)
        ensures
            match r {
                Some(v) => v.name() == name@,
                None => forall|v: Self| v.name() != name@,
            },
    {
        if str_eq(name, "male") {
            Some(Gender::Male)
        } else if str_eq(name, "female") {
            Some(Gender::Female)
        } else {
            None
        }
    }

    /// No two values are kept under one name.
    pub proof fn law_names_differ(a: Self, b: Self)
        requires
            a.name() == b.name(),
        ensures
            a == b,
    {
        reveal_strlit("male");
        reveal_strlit("female");
        assert(Gender::Male.name().len() == 4);
        assert(Gender::Female.name().len() == 6);
    }
}

/// Where a student stands with the school.
#[derive(Debug, Clone, Copy, PartialEq, Eq, Structural)]
pub enum StudentStatus {
    Active,
    Graduated,
    Withdrawn,
    Suspended,
}

impl StudentStatus {
    /// The name under which the store keeps the value, and by which it sorts.
    pub open spec fn name(&self) -> Seq<char> {
        match self {
            StudentStatus::Active => "active"@,
            StudentStatus::Graduated => "graduated"@,
            StudentStatus::Withdrawn => "withdrawn"@,
            StudentStatus::Suspended => "suspended"@,
        }
    }

    /// The name under which the store keeps the value.
    pub fn as_str(&self) -> (r: &'static str)
        ensures
            r@ == self.name(),
    {
        match self {
            StudentStatus::Active => "active",
            StudentStatus::Graduated => "graduated",
            StudentStatus::Withdrawn => "withdrawn",
            StudentStatus::Suspended => "suspended",
        }
    }

    /// The value that the store keeps under a name, if it keeps one under it.
    pub fn from_name(name: &str) -> (r: Option<Self>)
        ensures
            match r {
                Some(v) => v.name() == name@,
                None => forall|v: Self| v.name() != name@,
            },
    {
        if str_eq(name, "active") {
            Some(StudentStatus::Active)
        } else if str_eq(name, "graduated") {
            Some(StudentStatus::Graduated)
        } else if str_eq(name, "withdrawn") {
            Some(StudentStatus::Withdrawn)
        } else if str_eq(name, "suspended") {
            Some(StudentStatus::Suspended)
        } else {
            None
        }
    }

    /// No two values are kept under one name.
    pub proof fn law_names_differ(a: Self, b: Self)
        requires
            a.name() == b.name(),
        ensures
            a == b,
    {
        reveal_strlit("active");
        reveal_strlit("graduated");
        reveal_strlit("withdrawn");
        reveal_strlit("suspended");
        assert(StudentStatus::Active.name().len() == 6
            && StudentStatus::Active.name()[0] == 'a');
        assert(StudentStatus::Graduated.name().len() == 9
            && StudentStatus::Graduated.name()[0] == 'g');
        assert(StudentStatus::Withdrawn.name().len() == 9
            && StudentStatus::Withdrawn.name()[0] == 'w');
        assert(StudentStatus::Suspended.name().len() == 9
            && StudentStatus::Suspended.name()[0] == 's');
    }
}

/// How a parent is related to a student.
#[derive(Debug, Clone, Copy, PartialEq, Eq, Structural)]
pub enum RelationshipType {
    Father,
    Mother,
    Guardian,
    Other,
}

impl RelationshipType {
    /// The name under which the store keeps the value, and by which it sorts.
    pub open spec fn name(&self) -> Seq<char> {
        match self {
            RelationshipType::Father => "father"@,
            RelationshipType::Mother => "mother"@,
            RelationshipType::Guardian => "guardian"@,
            RelationshipType::Other => "other"@,
        }
    }

    /// The name under which the store keeps the value.
    pub fn as_str(&self) -> (r: &'static str)
        ensures
            r@ == self.name(),
    {
        match self {
            RelationshipType::Father => "father",
            RelationshipType::Mother => "mother",
            RelationshipType::Guardian => "guardian",
            RelationshipType::Other => "other",
        }
    }

    /// The value that the store keeps under a name, if it keeps one under it.
    pub fn from_name(name: &str) -> (r: Option<Self>)
        ensures
            match r {
                Some(v) => v.name() == name@,
                None => forall|v: Self| v.name() != name@,
            },
    {
        if str_eq(name, "father") {
            Some(RelationshipType::Father)
        } else if str_eq(name, "mother") {
            Some(RelationshipType::Mother)
        } else if str_eq(name, "guardian") {
            Some(RelationshipType::Guardian)
        } else if str_eq(name, "other") {
            Some(RelationshipType::Other)
        } else {
            None
        }
    }

    /// No two values are kept under one name.
    pub proof fn law_names_differ(a: Self, b: Self)
        requires
            a.name() == b.name(),
        ensures
            a == b,
    {
        reveal_strlit("father");
        reveal_strlit("mother");
        reveal_strlit("guardian");
        reveal_strlit("other");
        assert(RelationshipType::Father.name().len() == 6
            && RelationshipType::Father.name()[0] == 'f');
        assert(RelationshipType::Mother.name().len() == 6
            && RelationshipType::Mother.name()[0] == 'm');
        assert(RelationshipType::Guardian.name().len() == 8
            && RelationshipType::Guardian.name()[0] == 'g');
        assert(RelationshipType::Other.name().len() == 5
            && RelationshipType::Other.name()[0] == 'o');
    }
}

/// The level of a class.
#[derive(Debug, Clone, Copy, PartialEq, Eq, Structural)]
pub enum ClassLevel {
    Nursery,
    Primary,
    JuniorSecondary,
    SeniorSecondary,
}

impl ClassLevel {
    /// The name under which the store keeps the value, and by which it sorts.
    pub open spec fn name(&self) -> Seq<char> {
        match self {
            ClassLevel::Nursery => "nursery"@,
            ClassLevel::Primary => "primary"@,
            ClassLevel::JuniorSecondary => "junior_secondary"@,
            ClassLevel::SeniorSecondary => "senior_secondary"@,
        }
    }

    /// The name under which the store keeps the value.
    pub fn as_str(&self) -> (r: &'static str)
        ensures
            r@ == self.name(),
    {
        match self {
            ClassLevel::Nursery => "nursery",
            ClassLevel::Primary => "primary",
            ClassLevel::JuniorSecondary => "junior_secondary",
            ClassLevel::SeniorSecondary => "senior_secondary",
        }
    }

    /// The value that the store keeps under a name, if it keeps one under it.
    pub fn from_name(name: &str) -> (r: Option<Self>)
        ensures
            match r {
                Some(v) => v.name() == name@,
                None => forall|v: Self| v.name() != name@,
            },
    {
        if str_eq(name, "nursery") {
            Some(ClassLevel::Nursery)
        } else if str_eq(name, "primary") {
            Some(ClassLevel::Primary)
        } else if str_eq(name, "junior_secondary") {
            Some(ClassLevel::JuniorSecondary)
        } else if str_eq(name, "senior_secondary") {
            Some(ClassLevel::SeniorSecondary)
        } else {
            None
        }
    }

    /// No two values are kept under one name.
    pub proof fn law_names_differ(a: Self, b: Self)
        requires
            a.name() == b.name(),
        ensures
            a == b,
    {
        reveal_strlit("nursery");
        reveal_strlit("primary");
        reveal_strlit("junior_secondary");
        reveal_strlit("senior_secondary");
        assert(ClassLevel::Nursery.name().len() == 7
            && ClassLevel::Nursery.name()[0] == 'n');
        assert(ClassLevel::Primary.name().len() == 7
            && ClassLevel::Primary.name()[0] == 'p');
        assert(ClassLevel::JuniorSecondary.name().len() == 16
            && ClassLevel::JuniorSecondary.name()[0] == 'j');
        assert(ClassLevel::SeniorSecondary.name().len() == 16
            && ClassLevel::SeniorSecondary.name()[0] == 's');
    }
}

/// Whether a subject is taken by all.
#[derive(Debug, Clone, Copy, PartialEq, Eq, Structural)]
pub enum SubjectType {
    Core,
    Elective,
}

impl SubjectType {
    /// The name under which the store keeps the value, and by which it sorts.
    pub open spec fn name(&self) -> Seq<char> {
        match self {
            SubjectType::Core => "core"@,
            SubjectType::Elective => "elective"@,
        }
    }

    /// The name under which the store keeps the value.
    pub fn as_str(&self) -> (r: &'static str)
        ensures
            r@ == self.name(),
    {
        match self {
            SubjectType::Core => "core",
            SubjectType::Elective => "elective",
        }
    }

    /// The value that the store keeps under a name, if it keeps one under it.
    pub fn from_name(name: &str) -> (r: Option<Self>)
        ensures
            match r {
                Some(v) => v.name() == name@,
                None => forall|v: Self| v.name() != name@,
            },
    {
        if str_eq(name, "core") {
            Some(SubjectType::Core)
        } else if str_eq(name, "elective") {
            Some(SubjectType::Elective)
        } else {
            None
        }
    }

    /// No two values are kept under one name.
    pub proof fn law_names_differ(a: Self, b: Self)
        requires
            a.name() == b.name(),
        ensures
            a == b,
    {
        reveal_strlit("core");
        reveal_strlit("elective");
        assert(SubjectType::Core.name().len() == 4);
        assert(SubjectType::Elective.name().len() == 8);
    }
}

/// The kind of an assessment.
#[derive(Debug, Clone, Copy, PartialEq, Eq, Structural)]
pub enum AssessmentType {
    Ca1,
    Ca2,
    Ca3,
    Exam,
    Test,
    Assignment,
}

impl AssessmentType {
    /// The name under which the store keeps the value, and by which it sorts.
    pub open spec fn name(&self) -> Seq<char> {
        match self {
            AssessmentType::Ca1 => "ca1"@,
            AssessmentType::Ca2 => "ca2"@,
            AssessmentType::Ca3 => "ca3"@,
            AssessmentType::Exam => "exam"@,
            AssessmentType::Test => "test"@,
            AssessmentType::Assignment => "assignment"@,
        }
    }

    /// The name under which the store keeps the value.
    pub fn as_str(&self) -> (r: &'static str)
        ensures
            r@ == self.name(),
    {
        match self {
            AssessmentType::Ca1 => "ca1",
            AssessmentType::Ca2 => "ca2",
            AssessmentType::Ca3 => "ca3",
            AssessmentType::Exam => "exam",
            AssessmentType::Test => "test",
            AssessmentType::Assignment => "assignment",
        }
    }

    /// The value that the store keeps under a name, if it keeps one under it.
    pub fn from_name(name: &str) -> (r: Option<Self>)
        ensures
            match r {
                Some(v) => v.name() == name@,
                None => forall|v: Self| v.name() != name@,
            },
    {
        if str_eq(name, "ca1") {
            Some(AssessmentType::Ca1)
        } else if str_eq(name, "ca2") {
            Some(AssessmentType::Ca2)
        } else if str_eq(name, "ca3") {
            Some(AssessmentType::Ca3)
        } else if str_eq(name, "exam") {
            Some(AssessmentType::Exam)
        } else if str_eq(name, "test") {
            Some(AssessmentType::Test)
        } else if str_eq(name, "assignment") {
            Some(AssessmentType::Assignment)
        } else {
            None
        }
    }

    /// No two values are kept under one name.
    pub proof fn law_names_differ(a: Self, b: Self)
        requires
            a.name() == b.name(),
        ensures
            a == b,
    {
        reveal_strlit("ca1");
        reveal_strlit("ca2");
        reveal_strlit("ca3");
        reveal_strlit("exam");
        reveal_strlit("test");
        reveal_strlit("assignment");
        assert(AssessmentType::Ca1.name().len() == 3
            && AssessmentType::Ca1.name()[2] == '1');
        assert(AssessmentType::Ca2.name().len() == 3
            && AssessmentType::Ca2.name()[2] == '2');
        assert(AssessmentType::Ca3.name().len() == 3
            && AssessmentType::Ca3.name()[2] == '3');
        assert(AssessmentType::Exam.name().len() == 4
            && AssessmentType::Exam.name()[2] == 'a');
        assert(AssessmentType::Test.name().len() == 4
            && AssessmentType::Test.name()[2] == 's');
        assert(AssessmentType::Assignment.name().len() == 10
            && AssessmentType::Assignment.name()[2] == 's');
    }
}

/// How a student attended on a day.
#[derive(Debug, Clone, Copy, PartialEq, Eq, Structural)]
pub enum AttendanceStatus {
    Present,
    Absent,
    Late,
    Excused,
}

impl AttendanceStatus {
    /// The name under which the store keeps the value, and by which it sorts.
    pub open spec fn name(&self) -> Seq<char> {
        match self {
            AttendanceStatus::Present => "present"@,
            AttendanceStatus::Absent => "absent"@,
            AttendanceStatus::Late => "late"@,
            AttendanceStatus::Excused => "excused"@,
        }
    }

    /// The name under which the store keeps the value.
    pub fn as_str(&self) -> (r: &'static str)
        ensures
            r@ == self.name(),
    {
        match self {
            AttendanceStatus::Present => "present",
            AttendanceStatus::Absent => "absent",
            AttendanceStatus::Late => "late",
            AttendanceStatus::Excused => "excused",
        }
    }

    /// The value that the store keeps under a name, if it keeps one under it.
    pub fn from_name(name: &str) -> (r: Option<Self>)
        ensures
            match r {
                Some(v) => v.name() == name@,
                None => forall|v: Self| v.name() != name@,
            },
    {
        if str_eq(name, "present") {
            Some(AttendanceStatus::Present)
        } else if str_eq(name, "absent") {
            Some(AttendanceStatus::Absent)
        } else if str_eq(name, "late") {
            Some(AttendanceStatus::Late)
        } else if str_eq(name, "excused") {
            Some(AttendanceStatus::Excused)
        } else {
            None
        }
    }

    /// No two values are kept under one name.
    pub proof fn law_names_differ(a: Self, b: Self)
        requires
            a.name() == b.name(),
        ensures
            a == b,
    {
        reveal_strlit("present");
        reveal_strlit("absent");
        reveal_strlit("late");
        reveal_strlit("excused");
        assert(AttendanceStatus::Present.name().len() == 7
            && AttendanceStatus::Present.name()[0] == 'p');
        assert(AttendanceStatus::Absent.name().len() == 6
            && AttendanceStatus::Absent.name()[0] == 'a');
        assert(AttendanceStatus::Late.name().len() == 4
            && AttendanceStatus::Late.name()[0] == 'l');
        assert(AttendanceStatus::Excused.name().len() == 7
            && AttendanceStatus::Excused.name()[0] == 'e');
    }
}

/// What a charge is raised for.
#[derive(Debug, Clone, Copy, PartialEq, Eq, Structural)]
pub enum FeeType {
    Tuition,
    Transport,
    Feeding,
    Development,
    Exam,
    Uniform,
    Books,
    Other,
}

impl FeeType {
    /// The name under which the store keeps the value, and by which it sorts.
    pub open spec fn name(&self) -> Seq<char> {
        match self {
            FeeType::Tuition => "tuition"@,
            FeeType::Transport => "transport"@,
            FeeType::Feeding => "feeding"@,
            FeeType::Development => "development"@,
            FeeType::Exam => "exam"@,
            FeeType::Uniform => "uniform"@,
            FeeType::Books => "books"@,
            FeeType::Other => "other"@,
        }
    }

    /// The name under which the store keeps the value.
    pub fn as_str(&self) -> (r: &'static str)
        ensures
            r@ == self.name(),
    {
        match self {
            FeeType::Tuition => "tuition",
            FeeType::Transport => "transport",
            FeeType::Feeding => "feeding",
            FeeType::Development => "development",
            FeeType::Exam => "exam",
            FeeType::Uniform => "uniform",
            FeeType::Books => "books",
            FeeType::Other => "other",
        }
    }

    /// The value that the store keeps under a name, if it keeps one under it.
    pub fn from_name(name: &str) -> (r: Option<Self>)
        ensures
            match r {
                Some(v) => v.name() == name@,
                None => forall|v: Self| v.name() != name@,
            },
    {
        if str_eq(name, "tuition") {
            Some(FeeType::Tuition)
        } else if str_eq(name, "transport") {
            Some(FeeType::Transport)
        } else if str_eq(name, "feeding") {
            Some(FeeType::Feeding)
        } else if str_eq(name, "development") {
            Some(FeeType::Development)
        } else if str_eq(name, "exam") {
            Some(FeeType::Exam)
        } else if str_eq(name, "uniform") {
            Some(FeeType::Uniform)
        } else if str_eq(name, "books") {
            Some(FeeType::Books)
        } else if str_eq(name, "other") {
            Some(FeeType::Other)
        } else {
            None
        }
    }

    /// No two values are kept under one name.
    pub proof fn law_names_differ(a: Self, b: Self)
        requires
            a.name() == b.name(),
        ensures
            a == b,
    {
        reveal_strlit("tuition");
        reveal_strlit("transport");
        reveal_strlit("feeding");
        reveal_strlit("development");
        reveal_strlit("exam");
        reveal_strlit("uniform");
        reveal_strlit("books");
        reveal_strlit("other");
        assert(FeeType::Tuition.name().len() == 7
            && FeeType::Tuition.name()[0] == 't');
        assert(FeeType::Transport.name().len() == 9
            && FeeType::Transport.name()[0] == 't');
        assert(FeeType::Feeding.name().len() == 7
            && FeeType::Feeding.name()[0] == 'f');
        assert(FeeType::Development.name().len() == 11
            && FeeType::Development.name()[0] == 'd');
        assert(FeeType::Exam.name().len() == 4
            && FeeType::Exam.name()[0] == 'e');
        assert(FeeType::Uniform.name().len() == 7
            && FeeType::Uniform.name()[0] == 'u');
        assert(FeeType::Books.name().len() == 5
            && FeeType::Books.name()[0] == 'b');
        assert(FeeType::Other.name().len() == 5
            && FeeType::Other.name()[0] == 'o');
    }
}

/// How often a charge is raised.
#[derive(Debug, Clone, Copy, PartialEq, Eq, Structural)]
pub enum FeeFrequency {
    PerTerm,
    PerSession,
    OneTime,
}

impl FeeFrequency {
    /// The name under which the store keeps the value, and by which it sorts.
    pub open spec fn name(&self) -> Seq<char> {
        match self {
            FeeFrequency::PerTerm => "per_term"@,
            FeeFrequency::PerSession => "per_session"@,
            FeeFrequency::OneTime => "one_time"@,
        }
    }

    /// The name under which the store keeps the value.
    pub fn as_str(&self) -> (r: &'static str)
        ensures
            r@ == self.name(),
    {
        match self {
            FeeFrequency::PerTerm => "per_term",
            FeeFrequency::PerSession => "per_session",
            FeeFrequency::OneTime => "one_time",
        }
    }

    /// The value that the store keeps under a name, if it keeps one under it.
    pub fn from_name(name: &str) -> (r: Option<Self>)
        ensures
            match r {
                Some(v) => v.name() == name@,
                None => forall|v: Self| v.name() != name@,
            },
    {
        if str_eq(name, "per_term") {
            Some(FeeFrequency::PerTerm)
        } else if str_eq(name, "per_session") {
            Some(FeeFrequency::PerSession)
        } else if str_eq(name, "one_time") {
            Some(FeeFrequency::OneTime)
        } else {
            None
        }
    }

    /// No two values are kept under one name.
    pub proof fn law_names_differ(a: Self, b: Self)
        requires
            a.name() == b.name(),
        ensures
            a == b,
    {
        reveal_strlit("per_term");
        reveal_strlit("per_session");
        reveal_strlit("one_time");
        assert(FeeFrequency::PerTerm.name().len() == 8
            && FeeFrequency::PerTerm.name()[0] == 'p');
        assert(FeeFrequency::PerSession.name().len() == 11
            && FeeFrequency::PerSession.name()[0] == 'p');
        assert(FeeFrequency::OneTime.name().len() == 8
            && FeeFrequency::OneTime.name()[0] == 'o');
    }
}

/// How far an invoice has been paid.
#[derive(Debug, Clone, Copy, PartialEq, Eq, Structural)]
pub enum InvoiceStatus {
    Unpaid,
    Partial,
    Paid,
    Overdue,
    Cancelled,
}

impl InvoiceStatus {
    /// The name under which the store keeps the value, and by which it sorts.
    pub open spec fn name(&self) -> Seq<char> {
        match self {
            InvoiceStatus::Unpaid => "unpaid"@,
            InvoiceStatus::Partial => "partial"@,
            InvoiceStatus::Paid => "paid"@,
            InvoiceStatus::Overdue => "overdue"@,
            InvoiceStatus::Cancelled => "cancelled"@,
        }
    }

    /// The name under which the store keeps the value.
    pub fn as_str(&self) -> (r: &'static str)
        ensures
            r@ == self.name(),
    {
        match self {
            InvoiceStatus::Unpaid => "unpaid",
            InvoiceStatus::Partial => "partial",
            InvoiceStatus::Paid => "paid",
            InvoiceStatus::Overdue => "overdue",
            InvoiceStatus::Cancelled => "cancelled",
        }
    }

    /// The value that the store keeps under a name, if it keeps one under it.
    pub fn from_name(name: &str) -> (r: Option<Self>)
        ensures
            match r {
                Some(v) => v.name() == name@,
                None => forall|v: Self| v.name() != name@,
            },
    {
        if str_eq(name, "unpaid") {
            Some(InvoiceStatus::Unpaid)
        } else if str_eq(name, "partial") {
            Some(InvoiceStatus::Partial)
        } else if str_eq(name, "paid") {
            Some(InvoiceStatus::Paid)
        } else if str_eq(name, "overdue") {
            Some(InvoiceStatus::Overdue)
        } else if str_eq(name, "cancelled") {
            Some(InvoiceStatus::Cancelled)
        } else {
            None
        }
    }

    /// No two values are kept under one name.
    pub proof fn law_names_differ(a: Self, b: Self)
        requires
            a.name() == b.name(),
        ensures
            a == b,
    {
        reveal_strlit("unpaid");
        reveal_strlit("partial");
        reveal_strlit("paid");
        reveal_strlit("overdue");
        reveal_strlit("cancelled");
        assert(InvoiceStatus::Unpaid.name().len() == 6
            && InvoiceStatus::Unpaid.name()[0] == 'u');
        assert(InvoiceStatus::Partial.name().len() == 7
            && InvoiceStatus::Partial.name()[0] == 'p');
        assert(InvoiceStatus::Paid.name().len() == 4
            && InvoiceStatus::Paid.name()[0] == 'p');
        assert(InvoiceStatus::Overdue.name().len() == 7
            && InvoiceStatus::Overdue.name()[0] == 'o');
        assert(InvoiceStatus::Cancelled.name().len() == 9
            && InvoiceStatus::Cancelled.name()[0] == 'c');
    }
}

/// How a payment was made.
#[derive(Debug, Clone, Copy, PartialEq, Eq, Structural)]
pub enum PaymentMethod {
    Cash,
    BankTransfer,
    Card,
    Paystack,
    Flutterwave,
    Ussd,
}

impl PaymentMethod {
    /// The name under which the store keeps the value, and by which it sorts.
    pub open spec fn name(&self) -> Seq<char> {
        match self {
            PaymentMethod::Cash => "cash"@,
            PaymentMethod::BankTransfer => "bank_transfer"@,
            PaymentMethod::Card => "card"@,
            PaymentMethod::Paystack => "paystack"@,
            PaymentMethod::Flutterwave => "flutterwave"@,
            PaymentMethod::Ussd => "ussd"@,
        }
    }

    /// The name under which the store keeps the value.
    pub fn as_str(&self) -> (r: &'static str)
        ensures
            r@ == self.name(),
    {
        match self {
            PaymentMethod::Cash => "cash",
            PaymentMethod::BankTransfer => "bank_transfer",
            PaymentMethod::Card => "card",
            PaymentMethod::Paystack => "paystack",
            PaymentMethod::Flutterwave => "flutterwave",
            PaymentMethod::Ussd => "ussd",
        }
    }

    /// The value that the store keeps under a name, if it keeps one under it.
    pub fn from_name(name: &str) -> (r: Option<Self>)
        ensures
            match r {
                Some(v) => v.name() == name@,
                None => forall|v: Self| v.name() != name@,
            },
    {
        if str_eq(name, "cash") {
            Some(PaymentMethod::Cash)
        } else if str_eq(name, "bank_transfer") {
            Some(PaymentMethod::BankTransfer)
        } else if str_eq(name, "card") {
            Some(PaymentMethod::Card)
        } else if str_eq(name, "paystack") {
            Some(PaymentMethod::Paystack)
        } else if str_eq(name, "flutterwave") {
            Some(PaymentMethod::Flutterwave)
        } else if str_eq(name, "ussd") {
            Some(PaymentMethod::Ussd)
        } else {
            None
        }
    }

    /// No two values are kept under one name.
    pub proof fn law_names_differ(a: Self, b: Self)
        requires
            a.name() == b.name(),
        ensures
            a == b,
    {
        reveal_strlit("cash");
        reveal_strlit("bank_transfer");
        reveal_strlit("card");
        reveal_strlit("paystack");
        reveal_strlit("flutterwave");
        reveal_strlit("ussd");
        assert(PaymentMethod::Cash.name().len() == 4
            && PaymentMethod::Cash.name()[0] == 'c'
            && PaymentMethod::Cash.name()[2] == 's');
        assert(PaymentMethod::BankTransfer.name().len() == 13
            && PaymentMethod::BankTransfer.name()[0] == 'b'
            && PaymentMethod::BankTransfer.name()[2] == 'n');
        assert(PaymentMethod::Card.name().len() == 4
            && PaymentMethod::Card.name()[0] == 'c'
            && PaymentMethod::Card.name()[2] == 'r');
        assert(PaymentMethod::Paystack.name().len() == 8
            && PaymentMethod::Paystack.name()[0] == 'p'
            && PaymentMethod::Paystack.name()[2] == 'y');
        assert(PaymentMethod::Flutterwave.name().len() == 11
            && PaymentMethod::Flutterwave.name()[0] == 'f'
            && PaymentMethod::Flutterwave.name()[2] == 'u');
        assert(PaymentMethod::Ussd.name().len() == 4
            && PaymentMethod::Ussd.name()[0] == 'u'
            && PaymentMethod::Ussd.name()[2] == 's');
    }
}

/// What became of a payment.
#[derive(Debug, Clone, Copy, PartialEq, Eq, Structural)]
pub enum PaymentStatus {
    Pending,
    Successful,
    Failed,
    Refunded,
}

impl PaymentStatus {
    /// The name under which the store keeps the value, and by which it sorts.
    pub open spec fn name(&self) -> Seq<char> {
        match self {
            PaymentStatus::Pending => "pending"@,
            PaymentStatus::Successful => "successful"@,
            PaymentStatus::Failed => "failed"@,
            PaymentStatus::Refunded => "refunded"@,
        }
    }

    /// The name under which the store keeps the value.
    pub fn as_str(&self) -> (r: &'static str)
        ensures
            r@ == self.name(),
    {
        match self {
            PaymentStatus::Pending => "pending",
            PaymentStatus::Successful => "successful",
            PaymentStatus::Failed => "failed",
            PaymentStatus::Refunded => "refunded",
        }
    }

    /// The value that the store keeps under a name, if it keeps one under it.
    pub fn from_name(name: &str) -> (r: Option<Self>)
        ensures
            match r {
                Some(v) => v.name() == name@,
                None => forall|v: Self| v.name() != name@,
            },
    {
        if str_eq(name, "pending") {
            Some(PaymentStatus::Pending)
        } else if str_eq(name, "successful") {
            Some(PaymentStatus::Successful)
        } else if str_eq(name, "failed") {
            Some(PaymentStatus::Failed)
        } else if str_eq(name, "refunded") {
            Some(PaymentStatus::Refunded)
        } else {
            None
        }
    }

    /// No two values are kept under one name.
    pub proof fn law_names_differ(a: Self, b: Self)
        requires
            a.name() == b.name(),
        ensures
            a == b,
    {
        reveal_strlit("pending");
        reveal_strlit("successful");
        reveal_strlit("failed");
        reveal_strlit("refunded");
        assert(PaymentStatus::Pending.name().len() == 7);
        assert(PaymentStatus::Successful.name().len() == 10);
        assert(PaymentStatus::Failed.name().len() == 6);
        assert(PaymentStatus::Refunded.name().len() == 8);
    }
}

/// The channel of a reminder.
#[derive(Debug, Clone, Copy, PartialEq, Eq, Structural)]
pub enum ReminderType {
    Sms,
    Email,
    Push,
    Whatsapp,
}

impl ReminderType {
    /// The name under which the store keeps the value, and by which it sorts.
    pub open spec fn name(&self) -> Seq<char> {
        match self {
            ReminderType::Sms => "sms"@,
            ReminderType::Email => "email"@,
            ReminderType::Push => "push"@,
            ReminderType::Whatsapp => "whatsapp"@,
        }
    }

    /// The name under which the store keeps the value.
    pub fn as_str(&self) -> (r: &'static str)
        ensures
            r@ == self.name(),
    {
        match self {
            ReminderType::Sms => "sms",
            ReminderType::Email => "email",
            ReminderType::Push => "push",
            ReminderType::Whatsapp => "whatsapp",
        }
    }

    /// The value that the store keeps under a name, if it keeps one under it.
    pub fn from_name(name: &str) -> (r: Option<Self>)
        ensures
            match r {
                Some(v) => v.name() == name@,
                None => forall|v: Self| v.name() != name@,
            },
    {
        if str_eq(name, "sms") {
            Some(ReminderType::Sms)
        } else if str_eq(name, "email") {
            Some(ReminderType::Email)
        } else if str_eq(name, "push") {
            Some(ReminderType::Push)
        } else if str_eq(name, "whatsapp") {
            Some(ReminderType::Whatsapp)
        } else {
            None
        }
    }

    /// No two values are kept under one name.
    pub proof fn law_names_differ(a: Self, b: Self)
        requires
            a.name() == b.name(),
        ensures
            a == b,
    {
        reveal_strlit("sms");
        reveal_strlit("email");
        reveal_strlit("push");
        reveal_strlit("whatsapp");
        assert(ReminderType::Sms.name().len() == 3);
        assert(ReminderType::Email.name().len() == 5);
        assert(ReminderType::Push.name().len() == 4);
        assert(ReminderType::Whatsapp.name().len() == 8);
    }
}

/// What became of something sent.
#[derive(Debug, Clone, Copy, PartialEq, Eq, Structural)]
pub enum DeliveryStatus {
    Sent,
    Delivered,
    Failed,
    Bounced,
}

impl DeliveryStatus {
    /// The name under which the store keeps the value, and by which it sorts.
    pub open spec fn name(&self) -> Seq<char> {
        match self {
            DeliveryStatus::Sent => "sent"@,
            DeliveryStatus::Delivered => "delivered"@,
            DeliveryStatus::Failed => "failed"@,
            DeliveryStatus::Bounced => "bounced"@,
        }
    }

    /// The name under which the store keeps the value.
    pub fn as_str(&self) -> (r: &'static str)
        ensures
            r@ == self.name(),
    {
        match self {
            DeliveryStatus::Sent => "sent",
            DeliveryStatus::Delivered => "delivered",
            DeliveryStatus::Failed => "failed",
            DeliveryStatus::Bounced => "bounced",
        }
    }

    /// The value that the store keeps under a name, if it keeps one under it.
    pub fn from_name(name: &str) -> (r: Option<Self>)
        ensures
            match r {
                Some(v) => v.name() == name@,
                None => forall|v: Self| v.name() != name@,
            },
    {
        if str_eq(name, "sent") {
            Some(DeliveryStatus::Sent)
        } else if str_eq(name, "delivered") {
            Some(DeliveryStatus::Delivered)
        } else if str_eq(name, "failed") {
            Some(DeliveryStatus::Failed)
        } else if str_eq(name, "bounced") {
            Some(DeliveryStatus::Bounced)
        } else {
            None
        }
    }

    /// No two values are kept under one name.
    pub proof fn law_names_differ(a: Self, b: Self)
        requires
            a.name() == b.name(),
        ensures
            a == b,
    {
        reveal_strlit("sent");
        reveal_strlit("delivered");
        reveal_strlit("failed");
        reveal_strlit("bounced");
        assert(DeliveryStatus::Sent.name().len() == 4);
        assert(DeliveryStatus::Delivered.name().len() == 9);
        assert(DeliveryStatus::Failed.name().len() == 6);
        assert(DeliveryStatus::Bounced.name().len() == 7);
    }
}

/// Whom an announcement or event is for.
#[derive(Debug, Clone, Copy, PartialEq, Eq, Structural)]
pub enum TargetAudience {
    All,
    Parents,
    Teachers,
    Students,
    SpecificClass,
}

impl TargetAudience {
    /// The name under which the store keeps the value, and by which it sorts.
    pub open spec fn name(&self) -> Seq<char> {
        match self {
            TargetAudience::All => "all"@,
            TargetAudience::Parents => "parents"@,
            TargetAudience::Teachers => "teachers"@,
            TargetAudience::Students => "students"@,
            TargetAudience::SpecificClass => "specific_class"@,
        }
    }

    /// The name under which the store keeps the value.
    pub fn as_str(&self) -> (r: &'static str)
        ensures
            r@ == self.name(),
    {
        match self {
            TargetAudience::All => "all",
            TargetAudience::Parents => "parents",
            TargetAudience::Teachers => "teachers",
            TargetAudience::Students => "students",
            TargetAudience::SpecificClass => "specific_class",
        }
    }

    /// The value that the store keeps under a name, if it keeps one under it.
    pub fn from_name(name: &str) -> (r: Option<Self>)
        ensures
            match r {
                Some(v) => v.name() == name@,
                None => forall|v: Self| v.name() != name@,
            },
    {
        if str_eq(name, "all") {
            Some(TargetAudience::All)
        } else if str_eq(name, "parents") {
            Some(TargetAudience::Parents)
        } else if str_eq(name, "teachers") {
            Some(TargetAudience::Teachers)
        } else if str_eq(name, "students") {
            Some(TargetAudience::Students)
        } else if str_eq(name, "specific_class") {
            Some(TargetAudience::SpecificClass)
        } else {
            None
        }
    }

    /// No two values are kept under one name.
    pub proof fn law_names_differ(a: Self, b: Self)
        requires
            a.name() == b.name(),
        ensures
            a == b,
    {
        reveal_strlit("all");
        reveal_strlit("parents");
        reveal_strlit("teachers");
        reveal_strlit("students");
        reveal_strlit("specific_class");
        assert(TargetAudience::All.name().len() == 3
            && TargetAudience::All.name()[0] == 'a');
        assert(TargetAudience::Parents.name().len() == 7
            && TargetAudience::Parents.name()[0] == 'p');
        assert(TargetAudience::Teachers.name().len() == 8
            && TargetAudience::Teachers.name()[0] == 't');
        assert(TargetAudience::Students.name().len() == 8
            && TargetAudience::Students.name()[0] == 's');
        assert(TargetAudience::SpecificClass.name().len() == 14
            && TargetAudience::SpecificClass.name()[0] == 's');
    }
}

/// How pressing an announcement is.
#[derive(Debug, Clone, Copy, PartialEq, Eq, Structural)]
pub enum Priority {
    Low,
    Normal,
    High,
    Urgent,
}

impl Priority {
    /// The name under which the store keeps the value, and by which it sorts.
    pub open spec fn name(&self) -> Seq<char> {
        match self {
            Priority::Low => "low"@,
            Priority::Normal => "normal"@,
            Priority::High => "high"@,
            Priority::Urgent => "urgent"@,
        }
    }

    /// The name under which the store keeps the value.
    pub fn as_str(&self) -> (r: &'static str)
        ensures
            r@ == self.name(),
    {
        match self {
            Priority::Low => "low",
            Priority::Normal => "normal",
            Priority::High => "high",
            Priority::Urgent => "urgent",
        }
    }

    /// The value that the store keeps under a name, if it keeps one under it.
    pub fn from_name(name: &str) -> (r: Option<Self>)
        ensures
            match r {
                Some(v) => v.name() == name@,
                None => forall|v: Self| v.name() != name@,
            },
    {
        if str_eq(name, "low") {
            Some(Priority::Low)
        } else if str_eq(name, "normal") {
            Some(Priority::Normal)
        } else if str_eq(name, "high") {
            Some(Priority::High)
        } else if str_eq(name, "urgent") {
            Some(Priority::Urgent)
        } else {
            None
        }
    }

    /// No two values are kept under one name.
    pub proof fn law_names_differ(a: Self, b: Self)
        requires
            a.name() == b.name(),
        ensures
            a == b,
    {
        reveal_strlit("low");
        reveal_strlit("normal");
        reveal_strlit("high");
        reveal_strlit("urgent");
        assert(Priority::Low.name().len() == 3
            && Priority::Low.name()[0] == 'l');
        assert(Priority::Normal.name().len() == 6
            && Priority::Normal.name()[0] == 'n');
        assert(Priority::High.name().len() == 4
            && Priority::High.name()[0] == 'h');
        assert(Priority::Urgent.name().len() == 6
            && Priority::Urgent.name()[0] == 'u');
    }
}

/// An answer to an invitation.
#[derive(Debug, Clone, Copy, PartialEq, Eq, Structural)]
pub enum RsvpResponse {
    Attending,
    NotAttending,
    Maybe,
}

impl RsvpResponse {
    /// The name under which the store keeps the value, and by which it sorts.
    pub open spec fn name(&self) -> Seq<char> {
        match self {
            RsvpResponse::Attending => "attending"@,
            RsvpResponse::NotAttending => "not_attending"@,
            RsvpResponse::Maybe => "maybe"@,
        }
    }

    /// The name under which the store keeps the value.
    pub fn as_str(&self) -> (r: &'static str)
        ensures
            r@ == self.name(),
    {
        match self {
            RsvpResponse::Attending => "attending",
            RsvpResponse::NotAttending => "not_attending",
            RsvpResponse::Maybe => "maybe",
        }
    }

    /// The value that the store keeps under a name, if it keeps one under it.
    pub fn from_name(name: &str) -> (r: Option<Self>)
        ensures
            match r {
                Some(v) => v.name() == name@,
                None => forall|v: Self| v.name() != name@,
            },
    {
        if str_eq(name, "attending") {
            Some(RsvpResponse::Attending)
        } else if str_eq(name, "not_attending") {
            Some(RsvpResponse::NotAttending)
        } else if str_eq(name, "maybe") {
            Some(RsvpResponse::Maybe)
        } else {
            None
        }
    }

    /// No two values are kept under one name.
    pub proof fn law_names_differ(a: Self, b: Self)
        requires
            a.name() == b.name(),
        ensures
            a == b,
    {
        reveal_strlit("attending");
        reveal_strlit("not_attending");
        reveal_strlit("maybe");
        assert(RsvpResponse::Attending.name().len() == 9);
        assert(RsvpResponse::NotAttending.name().len() == 13);
        assert(RsvpResponse::Maybe.name().len() == 5);
    }
}

/// What an audit entry records.
#[derive(Debug, Clone, Copy, PartialEq, Eq, Structural)]
pub enum ActionType {
    Login,
    Logout,
    Create,
    Update,
    Delete,
    View,
    Export,
    Publish,
    Payment,
}

impl ActionType {
    /// The name under which the store keeps the value, and by which it sorts.
    pub open spec fn name(&self) -> Seq<char> {
        match self {
            ActionType::Login => "login"@,
            ActionType::Logout => "logout"@,
            ActionType::Create => "create"@,
            ActionType::Update => "update"@,
            ActionType::Delete => "delete"@,
            ActionType::View => "view"@,
            ActionType::Export => "export"@,
            ActionType::Publish => "publish"@,
            ActionType::Payment => "payment"@,
        }
    }

    /// The name under which the store keeps the value.
    pub fn as_str(&self) -> (r: &'static str)
        ensures
            r@ == self.name(),
    {
        match self {
            ActionType::Login => "login",
            ActionType::Logout => "logout",
            ActionType::Create => "create",
            ActionType::Update => "update",
            ActionType::Delete => "delete",
            ActionType::View => "view",
            ActionType::Export => "export",
            ActionType::Publish => "publish",
            ActionType::Payment => "payment",
        }
    }

    /// The value that the store keeps under a name, if it keeps one under it.
    pub fn from_name(name: &str) -> (r: Option<Self>)
        ensures
            match r {
                Some(v) => v.name() == name@,
                None => forall|v: Self| v.name() != name@,
            },
    {
        if str_eq(name, "login") {
            Some(ActionType::Login)
        } else if str_eq(name, "logout") {
            Some(ActionType::Logout)
        } else if str_eq(name, "create") {
            Some(ActionType::Create)
        } else if str_eq(name, "update") {
            Some(ActionType::Update)
        } else if str_eq(name, "delete") {
            Some(ActionType::Delete)
        } else if str_eq(name, "view") {
            Some(ActionType::View)
        } else if str_eq(name, "export") {
            Some(ActionType::Export)
        } else if str_eq(name, "publish") {
            Some(ActionType::Publish)
        } else if str_eq(name, "payment") {
            Some(ActionType::Payment)
        } else {
            None
        }
    }

    /// No two values are kept under one name.
    pub proof fn law_names_differ(a: Self, b: Self)
        requires
            a.name() == b.name(),
        ensures
            a == b,
    {
        reveal_strlit("login");
        reveal_strlit("logout");
        reveal_strlit("create");
        reveal_strlit("update");
        reveal_strlit("delete");
        reveal_strlit("view");
        reveal_strlit("export");
        reveal_strlit("publish");
        reveal_strlit("payment");
        assert(ActionType::Login.name().len() == 5
            && ActionType::Login.name()[1] == 'o');
        assert(ActionType::Logout.name().len() == 6
            && ActionType::Logout.name()[1] == 'o');
        assert(ActionType::Create.name().len() == 6
            && ActionType::Create.name()[1] == 'r');
        assert(ActionType::Update.name().len() == 6
            && ActionType::Update.name()[1] == 'p');
        assert(ActionType::Delete.name().len() == 6
            && ActionType::Delete.name()[1] == 'e');
        assert(ActionType::View.name().len() == 4
            && ActionType::View.name()[1] == 'i');
        assert(ActionType::Export.name().len() == 6
            && ActionType::Export.name()[1] == 'x');
        assert(ActionType::Publish.name().len() == 7
            && ActionType::Publish.name()[1] == 'u');
        assert(ActionType::Payment.name().len() == 7
            && ActionType::Payment.name()[1] == 'a');
    }
}

/// What a notification is about.
#[derive(Debug, Clone, Copy, PartialEq, Eq, Structural)]
pub enum NotificationType {
    FeeReminder,
    ResultPublished,
    AttendanceAlert,
    Announcement,
    Message,
    Event,
    System,
}

impl NotificationType {
    /// The name under which the store keeps the value, and by which it sorts.
    pub open spec fn name(&self) -> Seq<char> {
        match self {
            NotificationType::FeeReminder => "fee_reminder"@,
            NotificationType::ResultPublished => "result_published"@,
            NotificationType::AttendanceAlert => "attendance_alert"@,
            NotificationType::Announcement => "announcement"@,
            NotificationType::Message => "message"@,
            NotificationType::Event => "event"@,
            NotificationType::System => "system"@,
        }
    }

    /// The name under which the store keeps the value.
    pub fn as_str(&self) -> (r: &'static str)
        ensures
            r@ == self.name(),
    {
        match self {
            NotificationType::FeeReminder => "fee_reminder",
            NotificationType::ResultPublished => "result_published",
            NotificationType::AttendanceAlert => "attendance_alert",
            NotificationType::Announcement => "announcement",
            NotificationType::Message => "message",
            NotificationType::Event => "event",
            NotificationType::System => "system",
        }
    }

    /// The value that the store keeps under a name, if it keeps one under it.
    pub fn from_name(name: &str) -> (r: Option<Self>)
        ensures
            match r {
                Some(v) => v.name() == name@,
                None => forall|v: Self| v.name() != name@,
            },
    {
        if str_eq(name, "fee_reminder") {
            Some(NotificationType::FeeReminder)
        } else if str_eq(name, "result_published") {
            Some(NotificationType::ResultPublished)
        } else if str_eq(name, "attendance_alert") {
            Some(NotificationType::AttendanceAlert)
        } else if str_eq(name, "announcement") {
            Some(NotificationType::Announcement)
        } else if str_eq(name, "message") {
            Some(NotificationType::Message)
        } else if str_eq(name, "event") {
            Some(NotificationType::Event)
        } else if str_eq(name, "system") {
            Some(NotificationType::System)
        } else {
            None
        }
    }

    /// No two values are kept under one name.
    pub proof fn law_names_differ(a: Self, b: Self)
        requires
            a.name() == b.name(),
        ensures
            a == b,
    {
        reveal_strlit("fee_reminder");
        reveal_strlit("result_published");
        reveal_strlit("attendance_alert");
        reveal_strlit("announcement");
        reveal_strlit("message");
        reveal_strlit("event");
        reveal_strlit("system");
        assert(NotificationType::FeeReminder.name().len() == 12
            && NotificationType::FeeReminder.name()[0] == 'f');
        assert(NotificationType::ResultPublished.name().len() == 16
            && NotificationType::ResultPublished.name()[0] == 'r');
        assert(NotificationType::AttendanceAlert.name().len() == 16
            && NotificationType::AttendanceAlert.name()[0] == 'a');
        assert(NotificationType::Announcement.name().len() == 12
            && NotificationType::Announcement.name()[0] == 'a');
        assert(NotificationType::Message.name().len() == 7
            && NotificationType::Message.name()[0] == 'm');
        assert(NotificationType::Event.name().len() == 5
            && NotificationType::Event.name()[0] == 'e');
        assert(NotificationType::System.name().len() == 6
            && NotificationType::System.name()[0] == 's');
    }
}

/// What an SMS is about.
#[derive(Debug, Clone, Copy, PartialEq, Eq, Structural)]
pub enum SmsType {
    FeeReminder,
    AttendanceAlert,
    Announcement,
    Event,
    ResultNotification,
    Other,
}

impl SmsType {
    /// The name under which the store keeps the value, and by which it sorts.
    pub open spec fn name(&self) -> Seq<char> {
        match self {
            SmsType::FeeReminder => "fee_reminder"@,
            SmsType::AttendanceAlert => "attendance_alert"@,
            SmsType::Announcement => "announcement"@,
            SmsType::Event => "event"@,
            SmsType::ResultNotification => "result_notification"@,
            SmsType::Other => "other"@,
        }
    }

    /// The name under which the store keeps the value.
    pub fn as_str(&self) -> (r: &'static str)
        ensures
            r@ == self.name(),
    {
        match self {
            SmsType::FeeReminder => "fee_reminder",
            SmsType::AttendanceAlert => "attendance_alert",
            SmsType::Announcement => "announcement",
            SmsType::Event => "event",
            SmsType::ResultNotification => "result_notification",
            SmsType::Other => "other",
        }
    }

    /// The value that the store keeps under a name, if it keeps one under it.
    pub fn from_name(name: &str) -> (r: Option<Self>)
        ensures
            match r {
                Some(v) => v.name() == name@,
                None => forall|v: Self| v.name() != name@,
            },
    {
        if str_eq(name, "fee_reminder") {
            Some(SmsType::FeeReminder)
        } else if str_eq(name, "attendance_alert") {
            Some(SmsType::AttendanceAlert)
        } else if str_eq(name, "announcement") {
            Some(SmsType::Announcement)
        } else if str_eq(name, "event") {
            Some(SmsType::Event)
        } else if str_eq(name, "result_notification") {
            Some(SmsType::ResultNotification)
        } else if str_eq(name, "other") {
            Some(SmsType::Other)
        } else {
            None
        }
    }

    /// No two values are kept under one name.
    pub proof fn law_names_differ(a: Self, b: Self)
        requires
            a.name() == b.name(),
        ensures
            a == b,
    {
        reveal_strlit("fee_reminder");
        reveal_strlit("attendance_alert");
        reveal_strlit("announcement");
        reveal_strlit("event");
        reveal_strlit("result_notification");
        reveal_strlit("other");
        assert(SmsType::FeeReminder.name().len() == 12
            && SmsType::FeeReminder.name()[0] == 'f');
        assert(SmsType::AttendanceAlert.name().len() == 16
            && SmsType::AttendanceAlert.name()[0] == 'a');
        assert(SmsType::Announcement.name().len() == 12
            && SmsType::Announcement.name()[0] == 'a');
        assert(SmsType::Event.name().len() == 5
            && SmsType::Event.name()[0] == 'e');
        assert(SmsType::ResultNotification.name().len() == 19
            && SmsType::ResultNotification.name()[0] == 'r');
        assert(SmsType::Other.name().len() == 5
            && SmsType::Other.name()[0] == 'o');
    }
}

/// How the value of a setting is to be read.
#[derive(Debug, Clone, Copy, PartialEq, Eq, Structural)]
pub enum SettingType {
    Text,
    Number,
    Boolean,
    Json,
}

impl SettingType {
    /// The name under which the store keeps the value, and by which it sorts.
    pub open spec fn name(&self) -> Seq<char> {
        match self {
            SettingType::Text => "text"@,
            SettingType::Number => "number"@,
            SettingType::Boolean => "boolean"@,
            SettingType::Json => "json"@,
        }
    }

    /// The name under which the store keeps the value.
    pub fn as_str(&self) -> (r: &'static str)
        ensures
            r@ == self.name(),
    {
        match self {
            SettingType::Text => "text",
            SettingType::Number => "number",
            SettingType::Boolean => "boolean",
            SettingType::Json => "json",
        }
    }

    /// The value that the store keeps under a name, if it keeps one under it.
    pub fn from_name(name: &str) -> (r: Option<Self>)
        ensures
            match r {
                Some(v) => v.name() == name@,
                None => forall|v: Self| v.name() != name@,
            },
    {
        if str_eq(name, "text") {
            Some(SettingType::Text)
        } else if str_eq(name, "number") {
            Some(SettingType::Number)
        } else if str_eq(name, "boolean") {
            Some(SettingType::Boolean)
        } else if str_eq(name, "json") {
            Some(SettingType::Json)
        } else {
            None
        }
    }

    /// No two values are kept under one name.
    pub proof fn law_names_differ(a: Self, b: Self)
        requires
            a.name() == b.name(),
        ensures
            a == b,
    {
        reveal_strlit("text");
        reveal_strlit("number");
        reveal_strlit("boolean");
        reveal_strlit("json");
        assert(SettingType::Text.name().len() == 4
            && SettingType::Text.name()[0] == 't');
        assert(SettingType::Number.name().len() == 6
            && SettingType::Number.name()[0] == 'n');
        assert(SettingType::Boolean.name().len() == 7
            && SettingType::Boolean.name()[0] == 'b');
        assert(SettingType::Json.name().len() == 4
            && SettingType::Json.name()[0] == 'j');
    }
}

/// A school: the tenant that every other record belongs to.
#[derive(Debug)]
pub struct School {
    pub id: Option<RecordId>,
    pub school_name: String,
    pub school_address: Option<String>,
    pub school_phone: Option<String>,
    pub school_email: Option<String>,
    pub school_logo_url: Option<String>,
    pub school_motto: Option<String>,
    pub total_students: i32,
    pub subscription_plan: SubscriptionPlan,
    pub subscription_expiry_date: Option<Datetime>,
    pub subscription_status: SubscriptionStatus,
    pub created_at: Datetime,
    pub updated_at: Datetime,
}

impl Clone for School {
    fn clone(&self) -> (r: Self)
        ensures
            r == *self,
    {
        School {
            id: self.id.clone(),
            school_name: self.school_name.clone(),
            school_address: self.school_address.clone(),
            school_phone: self.school_phone.clone(),
            school_email: self.school_email.clone(),
            school_logo_url: self.school_logo_url.clone(),
            school_motto: self.school_motto.clone(),
            total_students: self.total_students,
            subscription_plan: self.subscription_plan,
            subscription_expiry_date: self.subscription_expiry_date,
            subscription_status: self.subscription_status,
            created_at: self.created_at,
            updated_at: self.updated_at,
        }
    }
}

impl Record for School {
    open spec fn record_id(&self) -> Option<RecordId> {
        self.id
    }

    fn id(&self) -> (r: &Option<RecordId>) {
        &self.id
    }

    fn duplicate(&self) -> (r: Self) {
        self.clone()
    }

    open spec fn filed(self, id: RecordId) -> Self {
        School { id: Some(id), ..self }
    }

    fn file_under(self, id: RecordId) -> (r: Self) {
        let mut r = self;
        r.id = Some(id);
        r
    }
}

/// A person who can sign in, within one school.
#[derive(Debug)]
pub struct User {
    pub id: Option<RecordId>,
    pub school_id: RecordId,
    pub user_type: UserType,
    pub first_name: String,
    pub last_name: String,
    pub email: Option<String>,
    pub phone_number: Option<String>,
    pub password_hash: String,
    pub status: UserStatus,
    pub last_login: Option<Datetime>,
    pub email_verified: bool,
    pub phone_verified: bool,
    pub created_at: Datetime,
    pub updated_at: Datetime,
}

impl Clone for User {
    fn clone(&self) -> (r: Self)
        ensures
            r == *self,
    {
        User {
            id: self.id.clone(),
            school_id: self.school_id.clone(),
            user_type: self.user_type,
            first_name: self.first_name.clone(),
            last_name: self.last_name.clone(),
            email: self.email.clone(),
            phone_number: self.phone_number.clone(),
            password_hash: self.password_hash.clone(),
            status: self.status,
            last_login: self.last_login,
            email_verified: self.email_verified,
            phone_verified: self.phone_verified,
            created_at: self.created_at,
            updated_at: self.updated_at,
        }
    }
}

impl Record for User {
    open spec fn record_id(&self) -> Option<RecordId> {
        self.id
    }

    fn id(&self) -> (r: &Option<RecordId>) {
        &self.id
    }

    fn duplicate(&self) -> (r: Self) {
        self.clone()
    }

    open spec fn filed(self, id: RecordId) -> Self {
        User { id: Some(id), ..self }
    }

    fn file_under(self, id: RecordId) -> (r: Self) {
        let mut r = self;
        r.id = Some(id);
        r
    }
}

/// A pupil of a school.
#[derive(Debug)]
pub struct Student {
    pub id: Option<RecordId>,
    pub school_id: RecordId,
    pub admission_number: String,
    pub first_name: String,
    pub middle_name: Option<String>,
    pub last_name: String,
    pub date_of_birth: Datetime,
    pub gender: Gender,
    pub address: Option<String>,
    pub current_class_id: Option<RecordId>,
    pub admission_date: Datetime,
    pub status: StudentStatus,
    pub profile_photo_url: Option<String>,
    pub blood_group: Option<String>,
    pub genotype: Option<String>,
    pub medical_conditions: Option<String>,
    pub created_at: Datetime,
    pub updated_at: Datetime,
}

impl Clone for Student {
    fn clone(&self) -> (r: Self)
        ensures
            r == *self,
    {
        Student {
            id: self.id.clone(),
            school_id: self.school_id.clone(),
            admission_number: self.admission_number.clone(),
            first_name: self.first_name.clone(),
            middle_name: self.middle_name.clone(),
            last_name: self.last_name.clone(),
            date_of_birth: self.date_of_birth,
            gender: self.gender,
            address: self.address.clone(),
            current_class_id: self.current_class_id.clone(),
            admission_date: self.admission_date,
            status: self.status,
            profile_photo_url: self.profile_photo_url.clone(),
            blood_group: self.blood_group.clone(),
            genotype: self.genotype.clone(),
            medical_conditions: self.medical_conditions.clone(),
            created_at: self.created_at,
            updated_at: self.updated_at,
        }
    }
}

impl Record for Student {
    open spec fn record_id(&self) -> Option<RecordId> {
        self.id
    }

    fn id(&self) -> (r: &Option<RecordId>) {
        &self.id
    }

    fn duplicate(&self) -> (r: Self) {
        self.clone()
    }

    open spec fn filed(self, id: RecordId) -> Self {
        Student { id: Some(id), ..self }
    }

    fn file_under(self, id: RecordId) -> (r: Self) {
        let mut r = self;
        r.id = Some(id);
        r
    }
}

/// What is known of a user who is a parent or guardian.
#[derive(Debug)]
pub struct Parent {
    pub id: Option<RecordId>,
    pub user_id: RecordId,
    pub relationship_type: RelationshipType,
    pub occupation: Option<String>,
    pub home_address: Option<String>,
    pub office_address: Option<String>,
    pub emergency_contact: Option<String>,
    pub created_at: Datetime,
}

impl Clone for Parent {
    fn clone(&self) -> (r: Self)
        ensures
            r == *self,
    {
        Parent {
            id: self.id.clone(),
            user_id: self.user_id.clone(),
            relationship_type: self.relationship_type,
            occupation: self.occupation.clone(),
            home_address: self.home_address.clone(),
            office_address: self.office_address.clone(),
            emergency_contact: self.emergency_contact.clone(),
            created_at: self.created_at,
        }
    }
}

impl Record for Parent {
    open spec fn record_id(&self) -> Option<RecordId> {
        self.id
    }

    fn id(&self) -> (r: &Option<RecordId>) {
        &self.id
    }

    fn duplicate(&self) -> (r: Self) {
        self.clone()
    }

    open spec fn filed(self, id: RecordId) -> Self {
        Parent { id: Some(id), ..self }
    }

    fn file_under(self, id: RecordId) -> (r: Self) {
        let mut r = self;
        r.id = Some(id);
        r
    }
}

/// The edge from a student to one of the student's parents.
#[derive(Debug)]
pub struct StudentParent {
    pub id: Option<RecordId>,
    pub student_id: RecordId,
    pub out: RecordId,
    pub primary_contact: bool,
    pub created_at: Datetime,
}

impl Clone for StudentParent {
    fn clone(&self) -> (r: Self)
        ensures
            r == *self,
    {
        StudentParent {
            id: self.id.clone(),
            student_id: self.student_id.clone(),
            out: self.out.clone(),
            primary_contact: self.primary_contact,
            created_at: self.created_at,
        }
    }
}

impl Record for StudentParent {
    open spec fn record_id(&self) -> Option<RecordId> {
        self.id
    }

    fn id(&self) -> (r: &Option<RecordId>) {
        &self.id
    }

    fn duplicate(&self) -> (r: Self) {
        self.clone()
    }

    open spec fn filed(self, id: RecordId) -> Self {
        StudentParent { id: Some(id), ..self }
    }

    fn file_under(self, id: RecordId) -> (r: Self) {
        let mut r = self;
        r.id = Some(id);
        r
    }
}

/// A record that belongs to one school.
pub trait SchoolScoped {
    /// Whether the record can name its school. Every record can, but a
    /// school that the store has not filed yet.
    spec fn is_scoped(&self) -> bool;

    /// The school that the record belongs to.
    spec fn school(&self) -> RecordId;

    fn school_id(&self) -> (r: &RecordId)
        requires
            self.is_scoped(),
        ensures
            *r == self.school(),
    ;
}

/// A record that tells when it was made and when it last changed.
pub trait Timestamped {
    /// When the record was made.
    spec fn created(&self) -> Datetime;

    /// When the record last changed, if it keeps that.
    spec fn updated(&self) -> Option<Datetime>;

    fn created_at(&self) -> (r: Datetime)
        ensures
            r == self.created(),
    ;

    fn updated_at(&self) -> (r: Option<Datetime>)
        ensures
            r == self.updated(),
    ;
}

/// A record that is marked as deleted rather than removed.
pub trait SoftDeletable {
    fn is_deleted(&self) -> bool;

    fn deleted_at(&self) -> Option<Datetime>;
}

/// A record that tells who made it and who last changed it.
pub trait Auditable {
    fn created_by(&self) -> Option<&RecordId>;

    fn updated_by(&self) -> Option<&RecordId>;
}

impl SchoolScoped for School {
    open spec fn is_scoped(&self) -> bool {
        self.id is Some
    }

    open spec fn school(&self) -> RecordId {
        self.id.unwrap()
    }

    fn school_id(&self) -> (r: &RecordId) {
        self.id.as_ref().unwrap()
    }
}

impl SchoolScoped for User {
    open spec fn is_scoped(&self) -> bool {
        true
    }

    open spec fn school(&self) -> RecordId {
        self.school_id
    }

    fn school_id(&self) -> (r: &RecordId) {
        &self.school_id
    }
}

impl SchoolScoped for Student {
    open spec fn is_scoped(&self) -> bool {
        true
    }

    open spec fn school(&self) -> RecordId {
        self.school_id
    }

    fn school_id(&self) -> (r: &RecordId) {
        &self.school_id
    }
}

impl SchoolScoped for Class {
    open spec fn is_scoped(&self) -> bool {
        true
    }

    open spec fn school(&self) -> RecordId {
        self.school_id
    }

    fn school_id(&self) -> (r: &RecordId) {
        &self.school_id
    }
}

impl SchoolScoped for Subject {
    open spec fn is_scoped(&self) -> bool {
        true
    }

    open spec fn school(&self) -> RecordId {
        self.school_id
    }

    fn school_id(&self) -> (r: &RecordId) {
        &self.school_id
    }
}

impl SchoolScoped for Invoice {
    open spec fn is_scoped(&self) -> bool {
        true
    }

    open spec fn school(&self) -> RecordId {
        self.school_id
    }

    fn school_id(&self) -> (r: &RecordId) {
        &self.school_id
    }
}

impl Timestamped for School {
    open spec fn created(&self) -> Datetime {
        self.created_at
    }

    open spec fn updated(&self) -> Option<Datetime> {
        Some(self.updated_at)
    }

    fn created_at(&self) -> (r: Datetime) {
        self.created_at
    }

    fn updated_at(&self) -> (r: Option<Datetime>) {
        Some(self.updated_at)
    }
}

impl Timestamped for User {
    open spec fn created(&self) -> Datetime {
        self.created_at
    }

    open spec fn updated(&self) -> Option<Datetime> {
        Some(self.updated_at)
    }

    fn created_at(&self) -> (r: Datetime) {
        self.created_at
    }

    fn updated_at(&self) -> (r: Option<Datetime>) {
        Some(self.updated_at)
    }
}

impl Timestamped for Student {
    open spec fn created(&self) -> Datetime {
        self.created_at
    }

    open spec fn updated(&self) -> Option<Datetime> {
        Some(self.updated_at)
    }

    fn created_at(&self) -> (r: Datetime) {
        self.created_at
    }

    fn updated_at(&self) -> (r: Option<Datetime>) {
        Some(self.updated_at)
    }
}

} // verus!
