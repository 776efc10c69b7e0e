use vstd::prelude::*;

use crate::contracts::health::{allocatable_status, HealthStatus};

verus! {

/// What a health observation means for allocation.
#[derive(Clone, Copy, Debug, PartialEq, Eq, Structural)]
pub struct HealthDecision {
    pub allocatable: bool,
    pub retry_after_ms: Option<u64>,
    pub cooldown_ms: u64,
}

pub open spec fn clamp(v: u64, lo: u64, hi: u64) -> u64 {
    if v < lo {
        lo
    } else if v > hi {
        hi
    } else {
        v
    }
}

pub open spec fn blocked_spec(retry_after_ms: Option<u64>, cooldown_ms: u64) -> HealthDecision {
    HealthDecision { allocatable: false, retry_after_ms, cooldown_ms }
}

pub open spec fn map_health_spec(status: HealthStatus, provider_retry_after_ms: Option<u64>) -> HealthDecision {
    match status {
        HealthStatus::Ready | HealthStatus::ReadyModelCorrectionRequired => HealthDecision {
            allocatable: true,
            retry_after_ms: None,
            cooldown_ms: 0,
        },
        HealthStatus::LoginRequired => blocked_spec(None, 300_000),
        HealthStatus::SubscriptionRequired => blocked_spec(None, 3_600_000),
        HealthStatus::ProviderLimit => blocked_spec(
            None,
            clamp(
                match provider_retry_after_ms {
                    Some(v) => v,
                    None => 300_000,
                },
                60_000,
                3_600_000,
            ),
        ),
        HealthStatus::Unreachable => blocked_spec(Some(250), 30_000),
        HealthStatus::SchemaDrift => blocked_spec(None, 300_000),
        HealthStatus::Unknown => blocked_spec(Some(250), 60_000),
    }
}

pub fn map_health(status: HealthStatus, provider_retry_after_ms: Option<u64>) -> (r: HealthDecision)
    ensures
        r == map_health_spec(status, provider_retry_after_ms),
        r.allocatable == allocatable_status(status),
        !r.allocatable ==> 30_000 <= r.cooldown_ms <= 3_600_000,
        status == HealthStatus::ProviderLimit ==> !r.allocatable && r.retry_after_ms is None
            && 60_000 <= r.cooldown_ms <= 3_600_000 && (provider_retry_after_ms is None ==> r.cooldown_ms
            == 300_000) && (provider_retry_after_ms matches Some(v) ==> (60_000 <= v <= 3_600_000
            ==> r.cooldown_ms == v) && (v < 60_000 ==> r.cooldown_ms == 60_000) && (v > 3_600_000
            ==> r.cooldown_ms == 3_600_000)),
{
    match status {
        HealthStatus::Ready | HealthStatus::ReadyModelCorrectionRequired => HealthDecision {
            allocatable: true,
            retry_after_ms: None,
            cooldown_ms: 0,
        },
        HealthStatus::LoginRequired => blocked(None, 300_000),
        HealthStatus::SubscriptionRequired => blocked(None, 3_600_000),
        HealthStatus::ProviderLimit => {
            let requested = match provider_retry_after_ms {
                Some(v) => v,
                None => 300_000,
            };
            let cooldown = if requested < 60_000 {
                60_000
            } else if requested > 3_600_000 {
                3_600_000
            } else {
                requested
            };
            blocked(None, cooldown)
        },
        HealthStatus::Unreachable => blocked(Some(250), 30_000),
        HealthStatus::SchemaDrift => blocked(None, 300_000),
        HealthStatus::Unknown => blocked(Some(250), 60_000),
    }
}

pub fn picker_failure_cooldown_ms() -> (r: u64)
    ensures
        r == 300_000,
{
    300_000
}

pub open spec fn status_result_kind_spec(status: HealthStatus) -> Seq<char> {
    match status {
        HealthStatus::Ready | HealthStatus::ReadyModelCorrectionRequired => "status.ready"@,
        HealthStatus::LoginRequired | HealthStatus::SubscriptionRequired => "status.blocked"@,
        _ => "status.degraded"@,
    }
}

pub fn status_result_kind(status: HealthStatus) -> (r: &'static str)
    ensures
        r@ == status_result_kind_spec(status),
{
    match status {
        HealthStatus::Ready | HealthStatus::ReadyModelCorrectionRequired => "status.ready",
        HealthStatus::LoginRequired | HealthStatus::SubscriptionRequired => "status.blocked",
        HealthStatus::ProviderLimit
        | HealthStatus::Unreachable
        | HealthStatus::SchemaDrift
        | HealthStatus::Unknown => "status.degraded",
    }
}

fn blocked(retry_after_ms: Option<u64>, cooldown_ms: u64) -> (r: HealthDecision)
    ensures
        r == blocked_spec(retry_after_ms, cooldown_ms),
{
    HealthDecision { allocatable: false, retry_after_ms, cooldown_ms }
}

/// A provider limit blocks the slot for as long as the provider asked,
/// within one minute and one hour, or for five minutes where it gave no
/// time: an in-range retry-after is kept exactly, shorter ones are raised to
/// a minute, longer ones cut to an hour.
pub proof fn provider_limit_honours_retry_after(retry_after_ms: Option<u64>)
    ensures
        !map_health_spec(HealthStatus::ProviderLimit, retry_after_ms).allocatable,
        map_health_spec(HealthStatus::ProviderLimit, retry_after_ms).retry_after_ms is None,
        retry_after_ms is None ==> map_health_spec(HealthStatus::ProviderLimit, retry_after_ms).cooldown_ms
            == 300_000,
        retry_after_ms matches Some(v) ==> (60_000 <= v <= 3_600_000 ==> map_health_spec(
            HealthStatus::ProviderLimit,
            retry_after_ms,
        ).cooldown_ms == v),
        retry_after_ms matches Some(v) ==> (v < 60_000 ==> map_health_spec(
            HealthStatus::ProviderLimit,
            retry_after_ms,
        ).cooldown_ms == 60_000),
        retry_after_ms matches Some(v) ==> (v > 3_600_000 ==> map_health_spec(
            HealthStatus::ProviderLimit,
            retry_after_ms,
        ).cooldown_ms == 3_600_000),
{
}

/// A longer retry-after never gives a shorter provider-limit cooldown.
pub proof fn provider_limit_cooldown_is_monotone(a: u64, b: u64)
    requires
        a <= b,
    ensures
        map_health_spec(HealthStatus::ProviderLimit, Some(a)).cooldown_ms <= map_health_spec(
            HealthStatus::ProviderLimit,
            Some(b),
        ).cooldown_ms,
{
}

} // verus!
