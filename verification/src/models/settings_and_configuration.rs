//! Settings and report-card templates of a school.

use vstd::prelude::*;
use crate::models::SettingType;
use crate::table::Record;
use crate::values::Datetime;
use crate::values::RecordId;

verus! {

/// A setting of a school, by key.
#[derive(Debug)]
pub struct SchoolSetting {
    pub id: Option<RecordId>,
    pub school_id: RecordId,
    pub setting_key: String,
    pub setting_value: Option<String>,
    pub setting_type: SettingType,
    pub updated_at: Datetime,
}

impl Clone for SchoolSetting {
    fn clone(&self) -> (r: Self)
        ensures
            r == *self,
    {
        SchoolSetting {
            id: self.id.clone(),
            school_id: self.school_id.clone(),
            setting_key: self.setting_key.clone(),
            setting_value: self.setting_value.clone(),
            setting_type: self.setting_type,
            updated_at: self.updated_at,
        }
    }
}

impl Record for SchoolSetting {
    open spec fn record_id(&self) -> Option<RecordId> {
        self.id
    }

    fn id(&self) -> (r: &Option<RecordId>) {
        &self.id
    }

    fn duplicate(&self) -> (r: Self) {
        self.clone()
    }

    open spec fn filed(self, id: RecordId) -> Self {
        SchoolSetting { id: Some(id), ..self }
    }

    fn file_under(self, id: RecordId) -> (r: Self) {
        let mut r = self;
        r.id = Some(id);
        r
    }
}

/// A layout for report cards.
#[derive(Debug)]
pub struct ReportCardTemplate {
    pub id: Option<RecordId>,
    pub school_id: RecordId,
    pub template_name: String,
    pub template_html: Option<String>,
    pub is_default: bool,
    pub created_at: Datetime,
    pub updated_at: Datetime,
}

impl Clone for ReportCardTemplate {
    fn clone(&self) -> (r: Self)
        ensures
            r == *self,
    {
        ReportCardTemplate {
            id: self.id.clone(),
            school_id: self.school_id.clone(),
            template_name: self.template_name.clone(),
            template_html: self.template_html.clone(),
            is_default: self.is_default,
            created_at: self.created_at,
            updated_at: self.updated_at,
        }
    }
}

impl Record for ReportCardTemplate {
    open spec fn record_id(&self) -> Option<RecordId> {
        self.id
    }

    fn id(&self) -> (r: &Option<RecordId>) {
        &self.id
    }

    fn duplicate(&self) -> (r: Self) {
        self.clone()
    }

    open spec fn filed(self, id: RecordId) -> Self {
        ReportCardTemplate { id: Some(id), ..self }
    }

    fn file_under(self, id: RecordId) -> (r: Self) {
        let mut r = self;
        r.id = Some(id);
        r
    }
}

} // verus!
