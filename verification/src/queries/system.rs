//! The audit trail, settings, report-card templates, and the dashboard.

use vstd::prelude::*;
use crate::error::DbResult;
use crate::error::Error;
use crate::error::out_of_range;
use crate::error::range_error;
use crate::helpers::api_responses::ClassCollection;
use crate::helpers::api_responses::DashboardMetrics;
use crate::models::academic::Class;
use crate::models::fee_management::Invoice;
use crate::models::settings_and_configuration::ReportCardTemplate;
use crate::models::settings_and_configuration::SchoolSetting;
use crate::models::SettingType;
use crate::models::Student;
use crate::models::StudentStatus;
use crate::models::system_and_audit::ActivityLog;
use crate::models::User;
use crate::models::UserStatus;
use crate::models::UserType;
use crate::queries::fee::InvoiceQ;
use crate::table::any;
use crate::table::capped;
use crate::table::count;
use crate::table::create;
use crate::table::files;
use crate::table::find;
use crate::table::first_index;
use crate::table::first_match;
use crate::table::first_of;
use crate::table::holds;
use crate::table::ids_unique;
use crate::table::in_order;
use crate::table::law_numbers_rank;
use crate::table::lemma_filter_single;
use crate::table::lemma_first_index_is_first;
use crate::table::lemma_limited_in_order;
use crate::table::limit_or;
use crate::table::limited;
use crate::table::ordered;
use crate::table::Record;
use crate::table::revise_all;
use crate::table::rewrite_all;
use crate::table::same_identity;
use crate::table::select;
use crate::table::select_ordered;
use crate::table::tally;
use crate::table::total;
use crate::values::Datetime;
use crate::values::Decimal;
use crate::values::id_is;
use crate::values::is_named;
use crate::values::quotient;
use crate::values::RecordId;
use crate::values::Table;
use crate::values::Total;

verus! {

/// The repository of the audit trail.
pub struct ActivityLogQ;

impl ActivityLogQ {
    /// The entries of one school.
    pub open spec fn of_school(school_id: Seq<char>) -> spec_fn(ActivityLog) -> bool {
        |l: ActivityLog| l.school_id.names(Table::Schools, school_id)
    }

    /// The entries on what one user did.
    pub open spec fn of_user(user_id: Seq<char>) -> spec_fn(ActivityLog) -> bool {
        |l: ActivityLog| is_named(l.user_id, Table::Users, user_id)
    }

    /// The entries on one thing: those that name its kind and its key.
    pub open spec fn on_entity(entity_type: Seq<char>, entity_id: Seq<char>) -> spec_fn(
        ActivityLog,
    ) -> bool {
        |l: ActivityLog|
            l.entity_type is Some && l.entity_type.unwrap()@ == entity_type && l.entity_id is Some
                && l.entity_id.unwrap()@ == entity_id
    }

    /// The entry that was made later comes first.
    pub open spec fn latest_first() -> spec_fn(ActivityLog, ActivityLog) -> bool {
        |a: ActivityLog, b: ActivityLog| a.created_at > b.created_at
    }

    /// Files an entry under `key`.
    pub fn log(&self, logs: &mut Vec<ActivityLog>, data: ActivityLog, key: String) -> (r: DbResult<
        Option<ActivityLog>,
    >)
        ensures
            files(
                old(logs)@,
                final(logs)@,
                data.filed(RecordId { table: Table::ActivityLogs, key }),
                r,
            ),
    {
        create(logs, data, Table::ActivityLogs, key)
    }

    /// The latest entries of a school, the latest first: as many as `limit`
    /// says, 50 where it says nothing.
    pub fn get_by_school(&self, logs: &Vec<ActivityLog>, school_id: String, limit: Option<u32>)
        -> (r: Vec<ActivityLog>)
        ensures
            r@ == limited(
                ordered(logs@.filter(Self::of_school(school_id@)), Self::latest_first()),
                limit_or(limit, 50),
            ),
            in_order(r@, Self::latest_first()),
            r.len() <= limit_or(limit, 50),
            forall|i: int|
                0 <= i < r.len() ==> (#[trigger] r@[i]).school_id.names(Table::Schools, school_id@),
    {
        let keep = |l: &ActivityLog| -> (b: bool)
            ensures
                b == Self::of_school(school_id@)(*l),
            { l.school_id.is(Table::Schools, &school_id) };
        let precedes = |a: &ActivityLog, b: &ActivityLog| -> (r: bool)
            ensures
                r == Self::latest_first()(*a, *b),
            { a.created_at > b.created_at };
        let found = select_ordered(
            logs,
            keep,
            precedes,
            Ghost(Self::of_school(school_id@)),
            Ghost(Self::latest_first()),
        );
        proof {
            law_numbers_rank(Self::latest_first(), |a: ActivityLog| -(a.created_at as int));
            lemma_limited_in_order(found@, limit_or(limit, 50), Self::latest_first());
        }
        capped(found, limit, 50)
    }

    /// The latest entries on what a user did, the latest first: as many as
    /// `limit` says, 50 where it says nothing.
    pub fn get_by_user(&self, logs: &Vec<ActivityLog>, user_id: String, limit: Option<u32>) -> (r:
        Vec<ActivityLog>)
        ensures
            r@ == limited(
                ordered(logs@.filter(Self::of_user(user_id@)), Self::latest_first()),
                limit_or(limit, 50),
            ),
            in_order(r@, Self::latest_first()),
            r.len() <= limit_or(limit, 50),
    {
        let keep = |l: &ActivityLog| -> (b: bool)
            ensures
                b == Self::of_user(user_id@)(*l),
            { id_is(&l.user_id, Table::Users, &user_id) };
        let precedes = |a: &ActivityLog, b: &ActivityLog| -> (r: bool)
            ensures
                r == Self::latest_first()(*a, *b),
            { a.created_at > b.created_at };
        let found = select_ordered(
            logs,
            keep,
            precedes,
            Ghost(Self::of_user(user_id@)),
            Ghost(Self::latest_first()),
        );
        proof {
            law_numbers_rank(Self::latest_first(), |a: ActivityLog| -(a.created_at as int));
            lemma_limited_in_order(found@, limit_or(limit, 50), Self::latest_first());
        }
        capped(found, limit, 50)
    }

    /// The entries on one thing, the latest first.
    pub fn get_by_entity(&self, logs: &Vec<ActivityLog>, entity_type: String, entity_id: String)
        -> (r: Vec<ActivityLog>)
        ensures
            r@ == ordered(
                logs@.filter(Self::on_entity(entity_type@, entity_id@)),
                Self::latest_first(),
            ),
            in_order(r@, Self::latest_first()),
    {
        let keep = |l: &ActivityLog| -> (b: bool)
            ensures
                b == Self::on_entity(entity_type@, entity_id@)(*l),
            {
                (match &l.entity_type {
                    Some(t) => *t == entity_type,
                    None => false,
                }) && (match &l.entity_id {
                    Some(k) => *k == entity_id,
                    None => false,
                })
            };
        let precedes = |a: &ActivityLog, b: &ActivityLog| -> (r: bool)
            ensures
                r == Self::latest_first()(*a, *b),
            { a.created_at > b.created_at };
        proof {
            law_numbers_rank(Self::latest_first(), |a: ActivityLog| -(a.created_at as int));
        }
        select_ordered(
            logs,
            keep,
            precedes,
            Ghost(Self::on_entity(entity_type@, entity_id@)),
            Ghost(Self::latest_first()),
        )
    }
}

/// The repository of settings.
pub struct SchoolSettingQ;

impl SchoolSettingQ {
    /// The settings of one school.
    pub open spec fn of_school(school_id: Seq<char>) -> spec_fn(SchoolSetting) -> bool {
        |s: SchoolSetting| s.school_id.names(Table::Schools, school_id)
    }

    /// The settings of one school under one key.
    pub open spec fn named(school_id: Seq<char>, key: Seq<char>) -> spec_fn(SchoolSetting) -> bool {
        |s: SchoolSetting| s.school_id.names(Table::Schools, school_id) && s.setting_key@ == key
    }

    /// A setting with `value` as its value, as of `now`.
    pub open spec fn valued(value: String, now: Datetime) -> spec_fn(SchoolSetting)
        -> SchoolSetting {
        |s: SchoolSetting| SchoolSetting { setting_value: Some(value), updated_at: now, ..s }
    }

    /// The setting that an upsert files where the school has none under the key.
    pub open spec fn fresh(
        school_id: String,
        key: String,
        value: String,
        setting_type: SettingType,
        new_key: String,
        now: Datetime,
    ) -> SchoolSetting {
        SchoolSetting {
            id: Some(RecordId { table: Table::SchoolSettings, key: new_key }),
            school_id: RecordId { table: Table::Schools, key: school_id },
            setting_key: key,
            setting_value: Some(value),
            setting_type,
            updated_at: now,
        }
    }

    /// Files a setting under `key`.
    pub fn create(&self, settings: &mut Vec<SchoolSetting>, data: SchoolSetting, key: String) -> (r:
        DbResult<Option<SchoolSetting>>)
        ensures
            files(
                old(settings)@,
                final(settings)@,
                data.filed(RecordId { table: Table::SchoolSettings, key }),
                r,
            ),
    {
        create(settings, data, Table::SchoolSettings, key)
    }

    /// The value of a setting of a school: that of the first setting under
    /// the key, where it has a value.
    pub fn get(&self, settings: &Vec<SchoolSetting>, school_id: String, key: String) -> (r: Option<
        String,
    >)
        ensures
            r == match first_match(settings@, Self::named(school_id@, key@)) {
                Some(s) => s.setting_value,
                None => None,
            },
    {
        let keep = |s: &SchoolSetting| -> (b: bool)
            ensures
                b == Self::named(school_id@, key@)(*s),
            { s.school_id.is(Table::Schools, &school_id) && s.setting_key == key };
        match find(settings, keep, Ghost(Self::named(school_id@, key@))) {
            Some(s) => s.setting_value,
            None => None,
        }
    }

    /// Gives every setting of a school under `key` the value `value`, and
    /// hands back the first of them.
    pub fn update(
        &self,
        settings: &mut Vec<SchoolSetting>,
        school_id: String,
        key: String,
        value: String,
        now: Datetime,
    ) -> (r: Option<SchoolSetting>)
        ensures
            final(settings)@ == revise_all(
                old(settings)@,
                Self::named(school_id@, key@),
                Self::valued(value, now),
            ),
            r == first_of(
                old(settings)@.filter(Self::named(school_id@, key@)).map_values(
                    Self::valued(value, now),
                ),
            ),
    {
        let ghost apply = Self::valued(value, now);
        let keep = |s: &SchoolSetting| -> (b: bool)
            ensures
                b == Self::named(school_id@, key@)(*s),
            { s.school_id.is(Table::Schools, &school_id) && s.setting_key == key };
        let change = |s: &SchoolSetting| -> (n: SchoolSetting)
            ensures
                n == apply(*s),
            {
                let mut n = s.clone();
                n.setting_value = Some(value.clone());
                n.updated_at = now;
                n
            };
        let mut changed = rewrite_all(
            settings,
            keep,
            change,
            Ghost(Self::named(school_id@, key@)),
            Ghost(apply),
        );
        if changed.len() > 0 {
            Some(changed.remove(0))
        } else {
            None
        }
    }

    /// Sets a setting of a school, in one step: where the school has
    /// settings under `key`, each gets the value `value`; where it has none,
    /// one is filed under `new_key`, unless that key is taken.
    pub fn upsert(
        &self,
        settings: &mut Vec<SchoolSetting>,
        school_id: String,
        key: String,
        value: String,
        setting_type: SettingType,
        new_key: String,
        now: Datetime,
    ) -> (r: DbResult<()>)
        ensures
            if first_match(old(settings)@, Self::named(school_id@, key@)) is Some {
                r is Ok && final(settings)@ == revise_all(
                    old(settings)@,
                    Self::named(school_id@, key@),
                    Self::valued(value, now),
                )
            } else if holds(old(settings)@, Table::SchoolSettings, new_key@) {
                r == Err::<(), Error>(Error::Duplicate(new_key)) && final(settings)@ == old(
                    settings,
                )@
            } else {
                r is Ok && final(settings)@ == old(settings)@.push(
                    Self::fresh(school_id, key, value, setting_type, new_key, now),
                )
            },
    {
        let ghost apply = Self::valued(value, now);
        let keep = |s: &SchoolSetting| -> (b: bool)
            ensures
                b == Self::named(school_id@, key@)(*s),
            { s.school_id.is(Table::Schools, &school_id) && s.setting_key == key };
        if any(settings, &keep, Ghost(Self::named(school_id@, key@))) {
            let change = |s: &SchoolSetting| -> (n: SchoolSetting)
                ensures
                    n == apply(*s),
                {
                    let mut n = s.clone();
                    n.setting_value = Some(value.clone());
                    n.updated_at = now;
                    n
                };
            rewrite_all(settings, &keep, change, Ghost(Self::named(school_id@, key@)), Ghost(apply));
            Ok(())
        } else {
            let data = SchoolSetting {
                id: None,
                school_id: RecordId::new(Table::Schools, school_id),
                setting_key: key,
                setting_value: Some(value),
                setting_type,
                updated_at: now,
            };
            match create(settings, data, Table::SchoolSettings, new_key) {
                Ok(_) => Ok(()),
                Err(e) => Err(e),
            }
        }
    }

    /// The settings of a school, in the order of the table.
    pub fn get_all(&self, settings: &Vec<SchoolSetting>, school_id: String) -> (r: Vec<
        SchoolSetting,
    >)
        ensures
            r@ == settings@.filter(Self::of_school(school_id@)),
            forall|i: int|
                0 <= i < r.len() ==> (#[trigger] r@[i]).school_id.names(Table::Schools, school_id@),
    {
        let keep = |s: &SchoolSetting| -> (b: bool)
            ensures
                b == Self::of_school(school_id@)(*s),
            { s.school_id.is(Table::Schools, &school_id) };
        select(settings, keep, Ghost(Self::of_school(school_id@)))
    }
}

/// The repository of report-card templates.
pub struct ReportCardTemplateQ;

impl ReportCardTemplateQ {
    /// The templates of one school.
    pub open spec fn of_school(school_id: Seq<char>) -> spec_fn(ReportCardTemplate) -> bool {
        |t: ReportCardTemplate| t.school_id.names(Table::Schools, school_id)
    }

    /// The templates of one school that are flagged as the default.
    pub open spec fn default_of(school_id: Seq<char>) -> spec_fn(ReportCardTemplate) -> bool {
        |t: ReportCardTemplate| t.school_id.names(Table::Schools, school_id) && t.is_default
    }

    /// The template `template_id`, where it belongs to the school.
    pub open spec fn target(school_id: Seq<char>, template_id: Seq<char>) -> spec_fn(
        ReportCardTemplate,
    ) -> bool {
        |t: ReportCardTemplate|
            t.school_id.names(Table::Schools, school_id) && is_named(
                t.id,
                Table::ReportCardTemplates,
                template_id,
            )
    }

    /// A template flagged as the default if it is `template_id`, and as not
    /// the default otherwise, and stamped as changed at `now` either way.
    pub open spec fn marked(template_id: Seq<char>, now: Datetime) -> spec_fn(ReportCardTemplate)
        -> ReportCardTemplate {
        |t: ReportCardTemplate|
            ReportCardTemplate {
                is_default: is_named(t.id, Table::ReportCardTemplates, template_id),
                updated_at: now,
                ..t
            }
    }

    /// Files a template under `key`.
    pub fn create(&self, templates: &mut Vec<ReportCardTemplate>, data: ReportCardTemplate, key: String)
        -> (r: DbResult<Option<ReportCardTemplate>>)
        ensures
            files(
                old(templates)@,
                final(templates)@,
                data.filed(RecordId { table: Table::ReportCardTemplates, key }),
                r,
            ),
    {
        create(templates, data, Table::ReportCardTemplates, key)
    }

    /// The default template of a school: the first that is flagged so.
    pub fn get_default(&self, templates: &Vec<ReportCardTemplate>, school_id: String) -> (r: Option<
        ReportCardTemplate,
    >)
        ensures
            r == first_match(templates@, Self::default_of(school_id@)),
            r is Some ==> r.unwrap().is_default && r.unwrap().school_id.names(
                Table::Schools,
                school_id@,
            ),
    {
        let keep = |t: &ReportCardTemplate| -> (b: bool)
            ensures
                b == Self::default_of(school_id@)(*t),
            { t.school_id.is(Table::Schools, &school_id) && t.is_default };
        find(templates, keep, Ghost(Self::default_of(school_id@)))
    }

    /// Makes `template_id` the default template of the school: in one step,
    /// every template of the school is flagged as the default if it is that
    /// template, and as not the default otherwise, and stamped as changed
    /// at `now`. Where the school has no such template, nothing changes.
    pub fn set_default(
        &self,
        templates: &mut Vec<ReportCardTemplate>,
        school_id: String,
        template_id: String,
        now: Datetime,
    ) -> (r: DbResult<()>)
        ensures
            match r {
                Ok(_) => {
                    &&& first_match(old(templates)@, Self::target(school_id@, template_id@)) is Some
                    &&& final(templates)@ == revise_all(
                        old(templates)@,
                        Self::of_school(school_id@),
                        Self::marked(template_id@, now),
                    )
                },
                Err(e) => {
                    &&& first_match(old(templates)@, Self::target(school_id@, template_id@)) is None
                    &&& final(templates)@ == old(templates)@
                    &&& e == Error::NotFound(template_id)
                },
            },
    {
        let aimed = |t: &ReportCardTemplate| -> (b: bool)
            ensures
                b == Self::target(school_id@, template_id@)(*t),
            {
                t.school_id.is(Table::Schools, &school_id) && id_is(
                    &t.id,
                    Table::ReportCardTemplates,
                    &template_id,
                )
            };
        if !any(templates, aimed, Ghost(Self::target(school_id@, template_id@))) {
            return Err(Error::NotFound(template_id));
        }
        let keep = |t: &ReportCardTemplate| -> (b: bool)
            ensures
                b == Self::of_school(school_id@)(*t),
            { t.school_id.is(Table::Schools, &school_id) };
        let change = |t: &ReportCardTemplate| -> (n: ReportCardTemplate)
            ensures
                n == Self::marked(template_id@, now)(*t),
            {
                let mut n = t.clone();
                n.is_default = id_is(&t.id, Table::ReportCardTemplates, &template_id);
                n.updated_at = now;
                n
            };
        rewrite_all(
            templates,
            keep,
            change,
            Ghost(Self::of_school(school_id@)),
            Ghost(Self::marked(template_id@, now)),
        );
        Ok(())
    }

    /// Once a template has been made the default, the school has exactly
    /// one default template, whatever was flagged before.
    pub proof fn law_one_default(
        before: Seq<ReportCardTemplate>,
        school_id: Seq<char>,
        template_id: Seq<char>,
        now: Datetime,
    )
        requires
            ids_unique(before),
            first_match(before, Self::target(school_id, template_id)) is Some,
        ensures
            revise_all(before, Self::of_school(school_id), Self::marked(template_id, now)).filter(
                Self::default_of(school_id),
            ).len() == 1,
    {
        let after = revise_all(before, Self::of_school(school_id), Self::marked(template_id, now));
        lemma_first_index_is_first(before, Self::target(school_id, template_id));
        let i = first_index(before, Self::target(school_id, template_id));
        assert(Self::default_of(school_id)(after[i]));
        assert forall|j: int| 0 <= j < after.len() && j != i implies !Self::default_of(school_id)(
            #[trigger] after[j],
        ) by {
            if Self::default_of(school_id)(after[j]) {
                assert(is_named(before[j].id, Table::ReportCardTemplates, template_id));
                if i < j {
                    assert(same_identity(before[i].record_id(), before[j].record_id()));
                } else {
                    assert(same_identity(before[j].record_id(), before[i].record_id()));
                }
            }
        }
        lemma_filter_single(after, Self::default_of(school_id), i);
    }
}

/// The figures that the dashboard shows.
pub struct AnalyticsQ;

impl AnalyticsQ {
    /// What was collected as a percentage of what was expected, in
    /// hundredths of a percent and rounded towards zero: zero where nothing
    /// was expected, and `collected / expected * 100` otherwise.
    pub open spec fn rate_of(collected: int, expected: int) -> int {
        if expected == 0 {
            0
        } else {
            quotient(collected * 10000, expected)
        }
    }

    /// The students of one school who attend it.
    pub open spec fn attending(school_id: Seq<char>) -> spec_fn(Student) -> bool {
        |s: Student|
            s.school_id.names(Table::Schools, school_id) && s.status == StudentStatus::Active
    }

    /// The teachers of one school who may sign in.
    pub open spec fn teaching(school_id: Seq<char>) -> spec_fn(User) -> bool {
        |u: User|
            u.school_id.names(Table::Schools, school_id) && u.user_type == UserType::Teacher
                && u.status == UserStatus::Active
    }

    /// The classes of one school.
    pub open spec fn classes_of(school_id: Seq<char>) -> spec_fn(Class) -> bool {
        |c: Class| c.school_id.names(Table::Schools, school_id)
    }

    /// Whether the dashboard can hold these figures and the rate that follows from them.
    pub open spec fn showable(
        students: int,
        teachers: int,
        classes: int,
        collected: int,
        expected: int,
    ) -> bool {
        &&& students <= i64::MAX
        &&& teachers <= i64::MAX
        &&& classes <= i64::MAX
        &&& i64::MIN <= collected <= i64::MAX
        &&& i64::MIN <= expected <= i64::MAX
        &&& i64::MIN <= Self::rate_of(collected, expected) <= i64::MAX
    }

    /// The dashboard of these figures.
    pub open spec fn shown(
        students: int,
        teachers: int,
        classes: int,
        collected: int,
        expected: int,
    ) -> DashboardMetrics {
        DashboardMetrics {
            total_students: students as i64,
            total_teachers: teachers as i64,
            total_classes: classes as i64,
            total_collected: collected as i64,
            total_expected: expected as i64,
            collection_rate: Self::rate_of(collected, expected) as i64,
        }
    }

    /// What was collected as a percentage of what was expected, in
    /// hundredths of a percent: zero where nothing was expected, and
    /// `collected / expected * 100` otherwise, rounded towards zero. There
    /// is none where the rate is not a number that a dashboard can hold.
    pub fn collection_rate(collected: Decimal, expected: Decimal) -> (r: Option<Decimal>)
        ensures
            expected == 0 ==> r == Some(0i64),
            match r {
                Some(rate) => rate == Self::rate_of(collected as int, expected as int),
                None => !(i64::MIN <= Self::rate_of(collected as int, expected as int)
                    <= i64::MAX),
            },
    {
        if expected == 0 {
            return Some(0);
        }
        let a: i128 = (collected as i128) * 10000;
        let b: i128 = expected as i128;
        let ua: u128 = if a < 0 {
            (-a) as u128
        } else {
            a as u128
        };
        let ub: u128 = if b < 0 {
            (-b) as u128
        } else {
            b as u128
        };
        let q: u128 = ua / ub;
        assert(q <= ua) by (nonlinear_arith)
            requires
                q == ua / ub,
                ub >= 1,
        ;
        if (a < 0) == (b < 0) {
            if q <= 0x7fff_ffff_ffff_ffff {
                Some(q as i64)
            } else {
                None
            }
        } else {
            if q <= 0x8000_0000_0000_0000 {
                Some((-(q as i128)) as i64)
            } else {
                None
            }
        }
    }

    /// The rate is zero whenever nothing was expected. Otherwise, for what
    /// was collected and expected and is not negative, it is
    /// `collected / expected * 100` in hundredths of a percent, cut off
    /// behind the last of them: it lies at most one hundredth below.
    pub proof fn law_collection_rate(collected: int, expected: int)
        requires
            collected >= 0,
            expected >= 0,
        ensures
            expected == 0 ==> Self::rate_of(collected, expected) == 0,
            expected > 0 ==> Self::rate_of(collected, expected) == (collected * 10000) / expected,
            expected > 0 ==> Self::rate_of(collected, expected) * expected <= collected * 10000
                < (Self::rate_of(collected, expected) + 1) * expected,
    {
        if expected > 0 {
            let n = collected * 10000;
            assert(n >= 0) by (nonlinear_arith)
                requires
                    n == collected * 10000,
                    collected >= 0,
            ;
            vstd::arithmetic::div_mod::lemma_fundamental_div_mod(n, expected);
            vstd::arithmetic::div_mod::lemma_mod_bound(n, expected);
            assert((n / expected) * expected == expected * (n / expected)) by (nonlinear_arith);
            assert((n / expected + 1) * expected == expected * (n / expected) + expected)
                by (nonlinear_arith);
        }
    }

    /// A dashboard is owed wherever its counts and sums are numbers that it
    /// can hold and nothing was expected, or no more was collected than was
    /// expected: the rate is then zero, or lies from nothing to a hundred
    /// percent.
    pub proof fn law_dashboard_owed(
        students: int,
        teachers: int,
        classes: int,
        collected: int,
        expected: int,
    )
        requires
            0 <= students <= i64::MAX,
            0 <= teachers <= i64::MAX,
            0 <= classes <= i64::MAX,
            i64::MIN <= collected <= i64::MAX,
            0 <= expected <= i64::MAX,
            expected == 0 || 0 <= collected <= expected,
        ensures
            Self::showable(students, teachers, classes, collected, expected),
            expected == 0 ==> Self::shown(
                students,
                teachers,
                classes,
                collected,
                expected,
            ).collection_rate == 0,
            expected > 0 ==> 0 <= Self::rate_of(collected, expected) <= 100_00,
    {
        if expected > 0 {
            Self::law_collection_rate(collected, expected);
            let rate = Self::rate_of(collected, expected);
            assert(collected * 10000 <= expected * 10000) by (nonlinear_arith)
                requires
                    collected <= expected,
            ;
            assert(rate <= 10000) by (nonlinear_arith)
                requires
                    rate * expected <= collected * 10000,
                    collected * 10000 <= expected * 10000,
                    expected > 0,
            ;
            assert(rate >= 0) by (nonlinear_arith)
                requires
                    collected * 10000 < (rate + 1) * expected,
                    collected >= 0,
                    expected > 0,
            ;
        }
    }

    /// The dashboard of figures that the store has counted and summed. Where
    /// a figure, or the rate, is not a number that a dashboard can hold, the
    /// store's range error is returned.
    pub fn metrics_from(students: u64, teachers: u64, classes: u64, collected: Total, expected: Total)
        -> (r: DbResult<DashboardMetrics>)
        ensures
            match r {
                Ok(m) => Self::showable(
                    students as int,
                    teachers as int,
                    classes as int,
                    collected as int,
                    expected as int,
                ) && m == Self::shown(
                    students as int,
                    teachers as int,
                    classes as int,
                    collected as int,
                    expected as int,
                ),
                Err(e) => out_of_range(e) && !Self::showable(
                    students as int,
                    teachers as int,
                    classes as int,
                    collected as int,
                    expected as int,
                ),
            },
    {
        if students > 0x7fff_ffff_ffff_ffff || teachers > 0x7fff_ffff_ffff_ffff || classes
            > 0x7fff_ffff_ffff_ffff {
            return Err(range_error());
        }
        if collected < -0x8000_0000_0000_0000 || collected > 0x7fff_ffff_ffff_ffff || expected
            < -0x8000_0000_0000_0000 || expected > 0x7fff_ffff_ffff_ffff {
            return Err(range_error());
        }
        match Self::collection_rate(collected as i64, expected as i64) {
            Some(rate) => Ok(
                DashboardMetrics {
                    total_students: students as i64,
                    total_teachers: teachers as i64,
                    total_classes: classes as i64,
                    total_collected: collected as i64,
                    total_expected: expected as i64,
                    collection_rate: rate,
                },
            ),
            None => Err(range_error()),
        }
    }

    /// The dashboard of a school for a term: its students who attend, its
    /// teachers who may sign in, its classes, what the invoices of the term
    /// ask for and what was paid on them, and the rate of collection that
    /// follows. Where a figure is not a number that a dashboard can hold,
    /// the store's range error is returned.
    pub fn get_dashboard_metrics(
        &self,
        students: &Vec<Student>,
        users: &Vec<User>,
        classes: &Vec<Class>,
        invoices: &Vec<Invoice>,
        school_id: String,
        term_id: String,
    ) -> (r: DbResult<DashboardMetrics>)
        ensures
            match r {
                Ok(m) => Self::showable(
                    students@.filter(Self::attending(school_id@)).len() as int,
                    users@.filter(Self::teaching(school_id@)).len() as int,
                    classes@.filter(Self::classes_of(school_id@)).len() as int,
                    total(
                        invoices@.filter(InvoiceQ::billed(school_id@, term_id@)),
                        InvoiceQ::collected(),
                    ),
                    total(
                        invoices@.filter(InvoiceQ::billed(school_id@, term_id@)),
                        InvoiceQ::expected(),
                    ),
                ) && m == Self::shown(
                    students@.filter(Self::attending(school_id@)).len() as int,
                    users@.filter(Self::teaching(school_id@)).len() as int,
                    classes@.filter(Self::classes_of(school_id@)).len() as int,
                    total(
                        invoices@.filter(InvoiceQ::billed(school_id@, term_id@)),
                        InvoiceQ::collected(),
                    ),
                    total(
                        invoices@.filter(InvoiceQ::billed(school_id@, term_id@)),
                        InvoiceQ::expected(),
                    ),
                ),
                Err(e) => out_of_range(e) && !Self::showable(
                    students@.filter(Self::attending(school_id@)).len() as int,
                    users@.filter(Self::teaching(school_id@)).len() as int,
                    classes@.filter(Self::classes_of(school_id@)).len() as int,
                    total(
                        invoices@.filter(InvoiceQ::billed(school_id@, term_id@)),
                        InvoiceQ::collected(),
                    ),
                    total(
                        invoices@.filter(InvoiceQ::billed(school_id@, term_id@)),
                        InvoiceQ::expected(),
                    ),
                ),
            },
            r is Ok && r.unwrap().total_expected == 0 ==> r.unwrap().collection_rate == 0,
    {
        let attends = |s: &Student| -> (b: bool)
            ensures
                b == Self::attending(school_id@)(*s),
            { s.school_id.is(Table::Schools, &school_id) && s.status == StudentStatus::Active };
        let teaches = |u: &User| -> (b: bool)
            ensures
                b == Self::teaching(school_id@)(*u),
            {
                u.school_id.is(Table::Schools, &school_id) && u.user_type == UserType::Teacher
                    && u.status == UserStatus::Active
            };
        let belongs = |c: &Class| -> (b: bool)
            ensures
                b == Self::classes_of(school_id@)(*c),
            { c.school_id.is(Table::Schools, &school_id) };
        let billed = |v: &Invoice| -> (b: bool)
            ensures
                b == InvoiceQ::billed(school_id@, term_id@)(*v),
            { v.school_id.is(Table::Schools, &school_id) && v.term_id.is(Table::Terms, &term_id) };
        let paid = |v: &Invoice| -> (a: i64)
            ensures
                a == InvoiceQ::collected()(*v),
            { v.amount_paid };
        let asked = |v: &Invoice| -> (a: i64)
            ensures
                a == InvoiceQ::expected()(*v),
            { v.total_amount };
        let total_students = count(students, attends, Ghost(Self::attending(school_id@)));
        let total_teachers = count(users, teaches, Ghost(Self::teaching(school_id@)));
        let total_classes = count(classes, belongs, Ghost(Self::classes_of(school_id@)));
        let (_, collected) = tally(
            invoices,
            &billed,
            paid,
            Ghost(InvoiceQ::billed(school_id@, term_id@)),
            Ghost(InvoiceQ::collected()),
        );
        let (_, expected) = tally(
            invoices,
            &billed,
            asked,
            Ghost(InvoiceQ::billed(school_id@, term_id@)),
            Ghost(InvoiceQ::expected()),
        );
        Self::metrics_from(
            total_students as u64,
            total_teachers as u64,
            total_classes as u64,
            collected,
            expected,
        )
    }

    /// What a school collected in a term, class by class: a row for each
    /// class of the school on whose students an invoice was raised, in the
    /// order of the table of classes, and last a row for the students
    /// without a class.
    pub fn get_fee_collection_by_class(
        &self,
        invoices: &Vec<Invoice>,
        students: &Vec<Student>,
        classes: &Vec<Class>,
        school_id: String,
        term_id: String,
    ) -> (r: Vec<ClassCollection>)
        ensures
            r@ == classes@.filter_map(
                InvoiceQ::class_row(invoices@, students@, school_id@, term_id@),
            ) + InvoiceQ::unplaced_row(invoices@, students@, school_id@, term_id@),
    {
        InvoiceQ.get_collection_by_class(invoices, students, classes, school_id, term_id)
    }
}

} // verus!
