use vstd::prelude::*;

use crate::errors::ConfigError;

verus! {

/// The configuration entity: a flat record of identity and auth
/// credentials, site location, remote API settings, and the field
/// mappings of the three remote lists (events, failures, components).
///
/// Tenant id, client id and client secret must be non-empty for the
/// entity to be accepted by `validate_required`; every other field has a
/// default.  The two numeric fields are always at least 1.
#[derive(Clone, Debug)]
pub struct SharePointConfig {
    pub user_name: String,
    pub tenant_id: String,
    pub client_id: String,
    pub client_secret: String,
    pub site_id: String,
    pub site_hostname: String,
    pub site_path: String,
    pub events_list_id: String,
    pub events_list_name: String,
    pub events_field_kind: String,
    pub events_field_ts: String,
    pub events_field_actor: String,
    pub events_field_version: String,
    pub events_field_payload: String,
    pub events_field_snapshot_file: String,
    pub snapshots_library_id: String,
    pub snapshots_library_name: String,
    pub events_snapshot_threshold_kb: u32,
    pub failures_list_id: String,
    pub failures_list_name: String,
    pub failures_field_component: String,
    pub failures_field_date: String,
    pub failures_field_type: String,
    pub components_list_id: String,
    pub components_list_name: String,
    pub components_field_id: String,
    pub components_field_name: String,
    pub components_field_subtype: String,
    pub components_field_type: String,
    pub components_field_insid: String,
    pub graph_base: String,
    pub graph_scope: String,
    pub timeout_s: u32,
}

/// Field-wise equality of two configuration entities, comparing string
/// fields by their character sequences.
pub open spec fn cfg_eq(a: SharePointConfig, b: SharePointConfig) -> bool {
    &&& a.user_name@ == b.user_name@
    &&& a.tenant_id@ == b.tenant_id@
    &&& a.client_id@ == b.client_id@
    &&& a.client_secret@ == b.client_secret@
    &&& a.site_id@ == b.site_id@
    &&& a.site_hostname@ == b.site_hostname@
    &&& a.site_path@ == b.site_path@
    &&& a.events_list_id@ == b.events_list_id@
    &&& a.events_list_name@ == b.events_list_name@
    &&& a.events_field_kind@ == b.events_field_kind@
    &&& a.events_field_ts@ == b.events_field_ts@
    &&& a.events_field_actor@ == b.events_field_actor@
    &&& a.events_field_version@ == b.events_field_version@
    &&& a.events_field_payload@ == b.events_field_payload@
    &&& a.events_field_snapshot_file@ == b.events_field_snapshot_file@
    &&& a.snapshots_library_id@ == b.snapshots_library_id@
    &&& a.snapshots_library_name@ == b.snapshots_library_name@
    &&& a.events_snapshot_threshold_kb == b.events_snapshot_threshold_kb
    &&& a.failures_list_id@ == b.failures_list_id@
    &&& a.failures_list_name@ == b.failures_list_name@
    &&& a.failures_field_component@ == b.failures_field_component@
    &&& a.failures_field_date@ == b.failures_field_date@
    &&& a.failures_field_type@ == b.failures_field_type@
    &&& a.components_list_id@ == b.components_list_id@
    &&& a.components_list_name@ == b.components_list_name@
    &&& a.components_field_id@ == b.components_field_id@
    &&& a.components_field_name@ == b.components_field_name@
    &&& a.components_field_subtype@ == b.components_field_subtype@
    &&& a.components_field_type@ == b.components_field_type@
    &&& a.components_field_insid@ == b.components_field_insid@
    &&& a.graph_base@ == b.graph_base@
    &&& a.graph_scope@ == b.graph_scope@
    &&& a.timeout_s == b.timeout_s
}

/// The entity produced by `SharePointConfig::default`: credentials and
/// ids empty, everything else at its documented default.
pub open spec fn is_default_config(c: SharePointConfig) -> bool {
    &&& c.user_name@ == Seq::<char>::empty()
    &&& c.tenant_id@ == Seq::<char>::empty()
    &&& c.client_id@ == Seq::<char>::empty()
    &&& c.client_secret@ == Seq::<char>::empty()
    &&& c.site_id@ == Seq::<char>::empty()
    &&& c.site_hostname@ == "your-hostname-here.sharepoint.com"@
    &&& c.site_path@ == "/sites/your-site-name"@
    &&& c.events_list_id@ == Seq::<char>::empty()
    &&& c.events_list_name@ == "eventsBLOCON"@
    &&& c.events_field_kind@ == "kind"@
    &&& c.events_field_ts@ == "timestamp"@
    &&& c.events_field_actor@ == "actor"@
    &&& c.events_field_version@ == "version"@
    &&& c.events_field_payload@ == "payload"@
    &&& c.events_field_snapshot_file@ == "snapshot_file"@
    &&& c.snapshots_library_id@ == Seq::<char>::empty()
    &&& c.snapshots_library_name@ == "snapshotsBLOCON"@
    &&& c.events_snapshot_threshold_kb == 100
    &&& c.failures_list_id@ == Seq::<char>::empty()
    &&& c.failures_list_name@ == "KKS_Failures"@
    &&& c.failures_field_component@ == "Component_ID"@
    &&& c.failures_field_date@ == "failure_date"@
    &&& c.failures_field_type@ == "type_failure"@
    &&& c.components_list_id@ == Seq::<char>::empty()
    &&& c.components_list_name@ == "Unit"@
    &&& c.components_field_id@ == "kks"@
    &&& c.components_field_name@ == "kks_name"@
    &&& c.components_field_subtype@ == "Subtype_Text"@
    &&& c.components_field_type@ == "Type_text"@
    &&& c.components_field_insid@ == "insID"@
    &&& c.graph_base@ == "https://graph.microsoft.com/v1.0"@
    &&& c.graph_scope@ == "https://graph.microsoft.com/.default"@
    &&& c.timeout_s == 30
}

impl SharePointConfig {
    /// The numeric fields are positive integers.
    pub open spec fn wf(self) -> bool {
        self.timeout_s >= 1 && self.events_snapshot_threshold_kb >= 1
    }

    /// The three required credential fields are non-empty.
    pub open spec fn required_present(self) -> bool {
        &&& self.tenant_id@.len() > 0
        &&& self.client_id@.len() > 0
        &&& self.client_secret@.len() > 0
    }
}

impl Default for SharePointConfig {
    /// The default entity: empty credentials and ids, documented
    /// defaults everywhere else.
    fn default() -> (r: Self)
        ensures
            is_default_config(r),
            r.wf(),
    {
        SharePointConfig {
            user_name: String::new(),
            tenant_id: String::new(),
            client_id: String::new(),
            client_secret: String::new(),
            site_id: String::new(),
            site_hostname: String::from_str("your-hostname-here.sharepoint.com"),
            site_path: String::from_str("/sites/your-site-name"),
            events_list_id: String::new(),
            events_list_name: String::from_str("eventsBLOCON"),
            events_field_kind: String::from_str("kind"),
            events_field_ts: String::from_str("timestamp"),
            events_field_actor: String::from_str("actor"),
            events_field_version: String::from_str("version"),
            events_field_payload: String::from_str("payload"),
            events_field_snapshot_file: String::from_str("snapshot_file"),
            snapshots_library_id: String::new(),
            snapshots_library_name: String::from_str("snapshotsBLOCON"),
            events_snapshot_threshold_kb: 100,
            failures_list_id: String::new(),
            failures_list_name: String::from_str("KKS_Failures"),
            failures_field_component: String::from_str("Component_ID"),
            failures_field_date: String::from_str("failure_date"),
            failures_field_type: String::from_str("type_failure"),
            components_list_id: String::new(),
            components_list_name: String::from_str("Unit"),
            components_field_id: String::from_str("kks"),
            components_field_name: String::from_str("kks_name"),
            components_field_subtype: String::from_str("Subtype_Text"),
            components_field_type: String::from_str("Type_text"),
            components_field_insid: String::from_str("insID"),
            graph_base: String::from_str("https://graph.microsoft.com/v1.0"),
            graph_scope: String::from_str("https://graph.microsoft.com/.default"),
            timeout_s: 30,
        }
    }
}

impl PartialEq for SharePointConfig {
    /// Field-wise comparison; string fields compare by contents.
    fn eq(&self, other: &Self) -> (r: bool) {
        self.user_name == other.user_name && self.tenant_id == other.tenant_id
            && self.client_id == other.client_id && self.client_secret == other.client_secret
            && self.site_id == other.site_id && self.site_hostname == other.site_hostname
            && self.site_path == other.site_path && self.events_list_id == other.events_list_id
            && self.events_list_name == other.events_list_name && self.events_field_kind
            == other.events_field_kind && self.events_field_ts == other.events_field_ts
            && self.events_field_actor == other.events_field_actor && self.events_field_version
            == other.events_field_version && self.events_field_payload
            == other.events_field_payload && self.events_field_snapshot_file
            == other.events_field_snapshot_file && self.snapshots_library_id
            == other.snapshots_library_id && self.snapshots_library_name
            == other.snapshots_library_name && self.events_snapshot_threshold_kb
            == other.events_snapshot_threshold_kb && self.failures_list_id
            == other.failures_list_id && self.failures_list_name == other.failures_list_name
            && self.failures_field_component == other.failures_field_component
            && self.failures_field_date == other.failures_field_date && self.failures_field_type
            == other.failures_field_type && self.components_list_id == other.components_list_id
            && self.components_list_name == other.components_list_name && self.components_field_id
            == other.components_field_id && self.components_field_name
            == other.components_field_name && self.components_field_subtype
            == other.components_field_subtype && self.components_field_type
            == other.components_field_type && self.components_field_insid
            == other.components_field_insid && self.graph_base == other.graph_base
            && self.graph_scope == other.graph_scope && self.timeout_s == other.timeout_s
    }
}

impl vstd::std_specs::cmp::PartialEqSpecImpl for SharePointConfig {
    open spec fn obeys_eq_spec() -> bool {
        true
    }

    open spec fn eq_spec(&self, other: &Self) -> bool {
        cfg_eq(*self, *other)
    }
}

/// Accepts exactly the entities whose tenant id, client id and client
/// secret are all non-empty; rejects the rest with
/// `MissingCredentials`.
pub fn validate_required(config: &SharePointConfig) -> (r: Result<(), ConfigError>)
    ensures
        r is Ok <==> config.required_present(),
        r is Err ==> r == Result::<(), ConfigError>::Err(ConfigError::MissingCredentials),
{
    if config.tenant_id.as_str().is_empty() || config.client_id.as_str().is_empty()
        || config.client_secret.as_str().is_empty() {
        Err(ConfigError::MissingCredentials)
    } else {
        Ok(())
    }
}

} // verus!
