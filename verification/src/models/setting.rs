//! System settings.

use vstd::prelude::*;

verus! {

/// One stored setting.
#[derive(Debug, Clone)]
pub struct SystemSetting {
    pub id: String,
    pub key: String,
    pub value: String,
    pub description: Option<String>,
    pub updated_at: String,
}

} // verus!
