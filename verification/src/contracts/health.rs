use vstd::prelude::*;

use crate::text::str_eq;

verus! {

/// Health of a slot as observed through the provider.
#[derive(Clone, Copy, Debug, PartialEq, Eq, Structural, PartialOrd, Ord, Hash)]
pub enum HealthStatus {
    Ready,
    ReadyModelCorrectionRequired,
    LoginRequired,
    SubscriptionRequired,
    ProviderLimit,
    Unreachable,
    SchemaDrift,
    Unknown,
}

/// The wire name of each status.
pub open spec fn health_str(s: HealthStatus) -> Seq<char> {
    match s {
        HealthStatus::Ready => "ready"@,
        HealthStatus::ReadyModelCorrectionRequired => "ready_model_correction_required"@,
        HealthStatus::LoginRequired => "login_required"@,
        HealthStatus::SubscriptionRequired => "subscription_required"@,
        HealthStatus::ProviderLimit => "provider_limit"@,
        HealthStatus::Unreachable => "unreachable"@,
        HealthStatus::SchemaDrift => "schema_drift"@,
        HealthStatus::Unknown => "unknown"@,
    }
}

/// The status whose wire name is `v`, checked in declaration order.
pub open spec fn health_parse(v: Seq<char>) -> Option<HealthStatus> {
    if v == "ready"@ {
        Some(HealthStatus::Ready)
    } else if v == "ready_model_correction_required"@ {
        Some(HealthStatus::ReadyModelCorrectionRequired)
    } else if v == "login_required"@ {
        Some(HealthStatus::LoginRequired)
    } else if v == "subscription_required"@ {
        Some(HealthStatus::SubscriptionRequired)
    } else if v == "provider_limit"@ {
        Some(HealthStatus::ProviderLimit)
    } else if v == "unreachable"@ {
        Some(HealthStatus::Unreachable)
    } else if v == "schema_drift"@ {
        Some(HealthStatus::SchemaDrift)
    } else if v == "unknown"@ {
        Some(HealthStatus::Unknown)
    } else {
        None
    }
}

pub open spec fn allocatable_status(s: HealthStatus) -> bool {
    s == HealthStatus::Ready || s == HealthStatus::ReadyModelCorrectionRequired
}

impl HealthStatus {
    pub fn as_str(self) -> (r: &'static str)
        ensures
            r@ == health_str(self),
    {
        match self {
            HealthStatus::Ready => "ready",
            HealthStatus::ReadyModelCorrectionRequired => "ready_model_correction_required",
            HealthStatus::LoginRequired => "login_required",
            HealthStatus::SubscriptionRequired => "subscription_required",
            HealthStatus::ProviderLimit => "provider_limit",
            HealthStatus::Unreachable => "unreachable",
            HealthStatus::SchemaDrift => "schema_drift",
            HealthStatus::Unknown => "unknown",
        }
    }

    pub fn parse(value: &str) -> (r: Option<HealthStatus>)
        ensures
            r == health_parse(value@),
    {
        if str_eq(value, "ready") {
            Some(HealthStatus::Ready)
        } else if str_eq(value, "ready_model_correction_required") {
            Some(HealthStatus::ReadyModelCorrectionRequired)
        } else if str_eq(value, "login_required") {
            Some(HealthStatus::LoginRequired)
        } else if str_eq(value, "subscription_required") {
            Some(HealthStatus::SubscriptionRequired)
        } else if str_eq(value, "provider_limit") {
            Some(HealthStatus::ProviderLimit)
        } else if str_eq(value, "unreachable") {
            Some(HealthStatus::Unreachable)
        } else if str_eq(value, "schema_drift") {
            Some(HealthStatus::SchemaDrift)
        } else if str_eq(value, "unknown") {
            Some(HealthStatus::Unknown)
        } else {
            None
        }
    }

    pub fn is_allocatable(self) -> (r: bool)
        ensures
            r == allocatable_status(self),
    {
        matches!(self, HealthStatus::Ready | HealthStatus::ReadyModelCorrectionRequired)
    }

    pub fn needs_single_retry(self) -> (r: bool)
        ensures
            r == (self == HealthStatus::Unreachable || self == HealthStatus::Unknown),
    {
        matches!(self, HealthStatus::Unreachable | HealthStatus::Unknown)
    }

    pub fn is_authentication_block(self) -> (r: bool)
        ensures
            r == (self == HealthStatus::LoginRequired || self == HealthStatus::SubscriptionRequired),
    {
        matches!(self, HealthStatus::LoginRequired | HealthStatus::SubscriptionRequired)
    }
}

/// Parsing the wire name of a status gives the status back.
pub proof fn health_status_round_trip(s: HealthStatus)
    ensures
        health_parse(health_str(s)) == Some(s),
{
    reveal_strlit("ready");
    reveal_strlit("ready_model_correction_required");
    reveal_strlit("login_required");
    reveal_strlit("subscription_required");
    reveal_strlit("provider_limit");
    reveal_strlit("unreachable");
    reveal_strlit("schema_drift");
    reveal_strlit("unknown");
    assert("ready"@.len() == 5);
    assert("ready_model_correction_required"@.len() == 31);
    assert("login_required"@.len() == 14);
    assert("subscription_required"@.len() == 21);
    assert("provider_limit"@.len() == 14);
    assert("unreachable"@.len() == 11);
    assert("schema_drift"@.len() == 12);
    assert("unknown"@.len() == 7);
    assert("login_required"@[0] != "provider_limit"@[0]);
}

/// A name parses only when it is the wire name of the status it gives.
pub proof fn health_parse_inverts(v: Seq<char>)
    ensures
        health_parse(v) matches Some(s) ==> health_str(s) == v,
{
}

} // verus!
