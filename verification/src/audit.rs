//! Audit trail for mission transfer compliance and forensic analysis: the
//! event store with its query filters and retention policy, the compliance
//! rules that raise security alerts, and the selection of entries for
//! reports. Times are milliseconds since the epoch.

use vstd::prelude::*;
use vstd::string::StringExecFns;

verus! {

// ---------------------------------------------------------------------------
// Text helpers
// ---------------------------------------------------------------------------

/// Decimal digits of `n`.
pub open spec fn decimal_chars(n: nat) -> Seq<char>
    decreases n,
{
    if n < 10 {
        seq![digit_char(n)]
    } else {
        decimal_chars(n / 10).push(digit_char(n % 10))
    }
}

pub open spec fn digit_char(d: nat) -> char {
    if d == 0 { '0' } else if d == 1 { '1' } else if d == 2 { '2' } else if d == 3 { '3' }
    else if d == 4 { '4' } else if d == 5 { '5' } else if d == 6 { '6' } else if d == 7 { '7' }
    else if d == 8 { '8' } else { '9' }
}

fn append_digit(s: &mut String, d: u64)
    requires
        d < 10,
    ensures
        final(s)@ == old(s)@.push(digit_char(d as nat)),
{
    let t: &str = if d == 0 { "0" } else if d == 1 { "1" } else if d == 2 { "2" } else if d == 3 { "3" }
        else if d == 4 { "4" } else if d == 5 { "5" } else if d == 6 { "6" } else if d == 7 { "7" }
        else if d == 8 { "8" } else { "9" };
    proof {
        reveal_strlit("0");
        reveal_strlit("1");
        reveal_strlit("2");
        reveal_strlit("3");
        reveal_strlit("4");
        reveal_strlit("5");
        reveal_strlit("6");
        reveal_strlit("7");
        reveal_strlit("8");
        reveal_strlit("9");
    }
    s.append(t);
    assert(s@ =~= old(s)@.push(digit_char(d as nat)));
}

/// Appends the decimal digits of `n`.
pub fn append_decimal(s: &mut String, n: u64)
    ensures
        final(s)@ == old(s)@ + decimal_chars(n as nat),
    decreases n,
{
    if n < 10 {
        append_digit(s, n);
        assert(s@ =~= old(s)@ + decimal_chars(n as nat));
    } else {
        append_decimal(s, n / 10);
        append_digit(s, n % 10);
        assert(s@ =~= old(s)@ + decimal_chars(n as nat));
    }
}

/// `prefix` followed by the decimal digits of `n`.
pub fn numbered(prefix: &str, n: u64) -> (r: String)
    ensures
        r@ == prefix@ + decimal_chars(n as nat),
{
    let mut s = String::new();
    s.append(prefix);
    append_decimal(&mut s, n);
    assert(s@ =~= prefix@ + decimal_chars(n as nat));
    s
}

// ---------------------------------------------------------------------------
// Entries
// ---------------------------------------------------------------------------

/// Kinds of auditable events.
#[derive(Debug, Clone, Copy, PartialEq, Eq, Structural)]
pub enum AuditEventType {
    MissionTransfer,
    SecurityAuthentication,
    AuthorizationCheck,
    WeatherValidation,
    DroneCommand,
    StationOperation,
    PolicyViolation,
    EmergencyAction,
    SystemHealthEvent,
    ComplianceAudit,
}

/// Severity levels, from least to most severe.
#[derive(Debug, Clone, Copy, PartialEq, Eq, Structural)]
pub enum AuditSeverity {
    Informational,
    Low,
    Medium,
    High,
    Critical,
}

/// Rank of a severity in the order of the levels.
pub open spec fn severity_rank(s: AuditSeverity) -> int {
    match s {
        AuditSeverity::Informational => 0,
        AuditSeverity::Low => 1,
        AuditSeverity::Medium => 2,
        AuditSeverity::High => 3,
        AuditSeverity::Critical => 4,
    }
}

impl AuditSeverity {
    pub fn rank(&self) -> (r: u8)
        ensures
            r == severity_rank(*self),
    {
        match self {
            AuditSeverity::Informational => 0,
            AuditSeverity::Low => 1,
            AuditSeverity::Medium => 2,
            AuditSeverity::High => 3,
            AuditSeverity::Critical => 4,
        }
    }
}

/// Who performed the audited action.
#[derive(Debug)]
pub enum AuditActor {
    HumanOperator { operator_id: String, clearance_level: String, department: Option<String> },
    Drone { drone_id: String, model: String, firmware_version: String },
    Station { station_id: String, location: String, software_version: String },
    System { component: String, version: String, subsystem: String },
    External { source_ip: Option<String>, user_agent: Option<String>, api_key_prefix: Option<String> },
}

fn clone_opt_string(s: &Option<String>) -> (r: Option<String>)
    ensures
        r == *s,
{
    match s {
        None => None,
        Some(x) => Some(x.clone()),
    }
}

impl Clone for AuditActor {
    fn clone(&self) -> (r: Self)
        ensures
            r == *self,
    {
        match self {
            AuditActor::HumanOperator { operator_id, clearance_level, department } => AuditActor::HumanOperator {
                operator_id: operator_id.clone(),
                clearance_level: clearance_level.clone(),
                department: clone_opt_string(department),
            },
            AuditActor::Drone { drone_id, model, firmware_version } => AuditActor::Drone {
                drone_id: drone_id.clone(),
                model: model.clone(),
                firmware_version: firmware_version.clone(),
            },
            AuditActor::Station { station_id, location, software_version } => AuditActor::Station {
                station_id: station_id.clone(),
                location: location.clone(),
                software_version: software_version.clone(),
            },
            AuditActor::System { component, version, subsystem } => AuditActor::System {
                component: component.clone(),
                version: version.clone(),
                subsystem: subsystem.clone(),
            },
            AuditActor::External { source_ip, user_agent, api_key_prefix } => AuditActor::External {
                source_ip: clone_opt_string(source_ip),
                user_agent: clone_opt_string(user_agent),
                api_key_prefix: clone_opt_string(api_key_prefix),
            },
        }
    }
}

/// Priority of a mission.
#[derive(Debug, Clone, Copy, PartialEq, Eq, Structural)]
pub enum MissionPriority {
    Low,
    Normal,
    High,
    Critical,
}

/// What the audited action was performed on.
#[derive(Debug)]
pub enum AuditTarget {
    Mission { mission_id: [u8; 16], priority: MissionPriority },
    Drone { drone_id: String, current_state: String },
    Station { station_id: String, current_load: u32 },
    Session { session_id: String, participants: Vec<String> },
    Policy { policy_id: String, domain: String },
    SystemComponent { component_name: String, state: String },
}

/// Time-related circumstances of an operation.
#[derive(Debug, Clone, Default)]
pub struct TemporalContext {
    pub business_hours: bool,
    pub critical_period: bool,
    pub weather_time_sensitive: bool,
    pub mission_time_pressure: Option<String>,
}

/// Business circumstances of an operation.
#[derive(Debug, Clone, Default)]
pub struct BusinessContext {
    pub operation_priority: String,
    pub regulatory_requirement: bool,
    pub commercial_impact: Option<String>,
    pub contractual_obligation: Option<String>,
}

/// Compliance findings attached to an entry.
#[derive(Debug)]
pub enum ComplianceFlag {
    Compliant,
    Warning { message: String },
    Violation { severity: AuditSeverity, code: String, message: String },
    Exemption { justification: String, approver: String },
}

/// Equality of compliance findings: same kind and same texts.
pub open spec fn same_flag(a: ComplianceFlag, b: ComplianceFlag) -> bool {
    match (a, b) {
        (ComplianceFlag::Compliant, ComplianceFlag::Compliant) => true,
        (ComplianceFlag::Warning { message: m1 }, ComplianceFlag::Warning { message: m2 }) => m1@ == m2@,
        (
            ComplianceFlag::Violation { severity: s1, code: c1, message: m1 },
            ComplianceFlag::Violation { severity: s2, code: c2, message: m2 },
        ) => s1 == s2 && c1@ == c2@ && m1@ == m2@,
        (
            ComplianceFlag::Exemption { justification: j1, approver: a1 },
            ComplianceFlag::Exemption { justification: j2, approver: a2 },
        ) => j1@ == j2@ && a1@ == a2@,
        _ => false,
    }
}

pub fn flags_equal(a: &ComplianceFlag, b: &ComplianceFlag) -> (r: bool)
    ensures
        r == same_flag(*a, *b),
{
    match (a, b) {
        (ComplianceFlag::Compliant, ComplianceFlag::Compliant) => true,
        (ComplianceFlag::Warning { message: m1 }, ComplianceFlag::Warning { message: m2 }) => *m1 == *m2,
        (
            ComplianceFlag::Violation { severity: s1, code: c1, message: m1 },
            ComplianceFlag::Violation { severity: s2, code: c2, message: m2 },
        ) => *s1 == *s2 && *c1 == *c2 && *m1 == *m2,
        (
            ComplianceFlag::Exemption { justification: j1, approver: a1 },
            ComplianceFlag::Exemption { justification: j2, approver: a2 },
        ) => *j1 == *j2 && *a1 == *a2,
        _ => false,
    }
}

/// Security facts kept for forensic analysis.
#[derive(Debug)]
pub struct SecurityMetadata {
    pub authentication_method: String,
    pub authorization_checks: Vec<String>,
    pub cryptographic_operations: Vec<String>,
    pub security_controls_applied: Vec<String>,
    pub suspicious_indicators: Vec<String>,
    pub integrity_hash: String,
}

/// Forensic evidence attached to an entry, in fixed units.
#[derive(Debug)]
pub enum EvidenceArtifact {
    LogEntry { source: String, level: String, message: String },
    DataBlob { content_type: String, size_bytes: usize, hash: String },
    NetworkTrace { protocol: String, source_ip: String, destination_ip: String, size_bytes: usize },
    /// The reading in thousandths of its unit.
    SensorReading { sensor_type: String, value_milli: i64, unit: String, timestamp_ms: u64 },
    /// Severity in per-mille.
    WeatherObservation { condition: String, severity_permille: u32, location: String },
    PolicyReference { policy_id: String, section: String, requirement: String },
}

impl Clone for EvidenceArtifact {
    fn clone(&self) -> (r: Self)
        ensures
            r == *self,
    {
        match self {
            EvidenceArtifact::LogEntry { source, level, message } => EvidenceArtifact::LogEntry {
                source: source.clone(),
                level: level.clone(),
                message: message.clone(),
            },
            EvidenceArtifact::DataBlob { content_type, size_bytes, hash } => EvidenceArtifact::DataBlob {
                content_type: content_type.clone(),
                size_bytes: *size_bytes,
                hash: hash.clone(),
            },
            EvidenceArtifact::NetworkTrace { protocol, source_ip, destination_ip, size_bytes } => EvidenceArtifact::NetworkTrace {
                protocol: protocol.clone(),
                source_ip: source_ip.clone(),
                destination_ip: destination_ip.clone(),
                size_bytes: *size_bytes,
            },
            EvidenceArtifact::SensorReading { sensor_type, value_milli, unit, timestamp_ms } => EvidenceArtifact::SensorReading {
                sensor_type: sensor_type.clone(),
                value_milli: *value_milli,
                unit: unit.clone(),
                timestamp_ms: *timestamp_ms,
            },
            EvidenceArtifact::WeatherObservation { condition, severity_permille, location } => EvidenceArtifact::WeatherObservation {
                condition: condition.clone(),
                severity_permille: *severity_permille,
                location: location.clone(),
            },
            EvidenceArtifact::PolicyReference { policy_id, section, requirement } => EvidenceArtifact::PolicyReference {
                policy_id: policy_id.clone(),
                section: section.clone(),
                requirement: requirement.clone(),
            },
        }
    }
}

/// A copy of a list of evidence.
pub fn clone_evidence(v: &Vec<EvidenceArtifact>) -> (r: Vec<EvidenceArtifact>)
    ensures
        r@ == v@,
{
    let mut r: Vec<EvidenceArtifact> = Vec::new();
    let mut i: usize = 0;
    while i < v.len()
        invariant
            i <= v.len(),
            r@ == v@.subrange(0, i as int),
        decreases v.len() - i,
    {
        r.push(v[i].clone());
        assert(v@.subrange(0, i + 1) =~= v@.subrange(0, i as int).push(v@[i as int]));
        i = i + 1;
    }
    assert(v@.subrange(0, v.len() as int) =~= v@);
    r
}

/// One audited event: its identity and time, what happened, who did it to
/// what, whether it succeeded, and the compliance and security facts.
#[derive(Debug)]
pub struct AuditEntry {
    pub entry_id: String,
    /// Zero when not yet stamped.
    pub timestamp_ms: u64,
    pub event_type: AuditEventType,
    pub severity: AuditSeverity,
    pub actor: AuditActor,
    pub target: Option<AuditTarget>,
    pub operation_name: String,
    pub success: bool,
    pub compliance_flags: Vec<ComplianceFlag>,
    pub security_metadata: SecurityMetadata,
    pub evidence: Vec<EvidenceArtifact>,
}

impl Clone for ComplianceFlag {
    fn clone(&self) -> (r: Self)
        ensures
            r == *self,
    {
        match self {
            ComplianceFlag::Compliant => ComplianceFlag::Compliant,
            ComplianceFlag::Warning { message } => ComplianceFlag::Warning { message: message.clone() },
            ComplianceFlag::Violation { severity, code, message } => ComplianceFlag::Violation {
                severity: *severity,
                code: code.clone(),
                message: message.clone(),
            },
            ComplianceFlag::Exemption { justification, approver } => ComplianceFlag::Exemption {
                justification: justification.clone(),
                approver: approver.clone(),
            },
        }
    }
}

/// `b` is a copy of `a`: equal, with lists equal element by element.
pub open spec fn target_copy(a: AuditTarget, b: AuditTarget) -> bool {
    match (a, b) {
        (
            AuditTarget::Session { session_id: s1, participants: p1 },
            AuditTarget::Session { session_id: s2, participants: p2 },
        ) => s1 == s2 && p1@ == p2@,
        _ => a == b,
    }
}

impl Clone for AuditTarget {
    fn clone(&self) -> (r: Self)
        ensures
            target_copy(*self, r),
    {
        match self {
            AuditTarget::Mission { mission_id, priority } => AuditTarget::Mission {
                mission_id: *mission_id,
                priority: *priority,
            },
            AuditTarget::Drone { drone_id, current_state } => AuditTarget::Drone {
                drone_id: drone_id.clone(),
                current_state: current_state.clone(),
            },
            AuditTarget::Station { station_id, current_load } => AuditTarget::Station {
                station_id: station_id.clone(),
                current_load: *current_load,
            },
            AuditTarget::Session { session_id, participants } => {
                let p = participants.clone();
                assert(p@ =~= participants@);
                AuditTarget::Session { session_id: session_id.clone(), participants: p }
            },
            AuditTarget::Policy { policy_id, domain } => AuditTarget::Policy {
                policy_id: policy_id.clone(),
                domain: domain.clone(),
            },
            AuditTarget::SystemComponent { component_name, state } => AuditTarget::SystemComponent {
                component_name: component_name.clone(),
                state: state.clone(),
            },
        }
    }
}

pub open spec fn metadata_copy(a: SecurityMetadata, b: SecurityMetadata) -> bool {
    &&& a.authentication_method == b.authentication_method
    &&& a.authorization_checks@ == b.authorization_checks@
    &&& a.cryptographic_operations@ == b.cryptographic_operations@
    &&& a.security_controls_applied@ == b.security_controls_applied@
    &&& a.suspicious_indicators@ == b.suspicious_indicators@
    &&& a.integrity_hash == b.integrity_hash
}

fn clone_strings(v: &Vec<String>) -> (r: Vec<String>)
    ensures
        r@ == v@,
{
    let r = v.clone();
    assert(r@ =~= v@);
    r
}

impl Clone for SecurityMetadata {
    fn clone(&self) -> (r: Self)
        ensures
            metadata_copy(*self, r),
    {
        SecurityMetadata {
            authentication_method: self.authentication_method.clone(),
            authorization_checks: clone_strings(&self.authorization_checks),
            cryptographic_operations: clone_strings(&self.cryptographic_operations),
            security_controls_applied: clone_strings(&self.security_controls_applied),
            suspicious_indicators: clone_strings(&self.suspicious_indicators),
            integrity_hash: self.integrity_hash.clone(),
        }
    }
}

/// `b` is a copy of `a`.
pub open spec fn entry_copy(a: AuditEntry, b: AuditEntry) -> bool {
    &&& a.entry_id == b.entry_id
    &&& a.timestamp_ms == b.timestamp_ms
    &&& a.event_type == b.event_type
    &&& a.severity == b.severity
    &&& a.actor == b.actor
    &&& match (a.target, b.target) {
        (None, None) => true,
        (Some(x), Some(y)) => target_copy(x, y),
        _ => false,
    }
    &&& a.operation_name == b.operation_name
    &&& a.success == b.success
    &&& a.compliance_flags@ == b.compliance_flags@
    &&& metadata_copy(a.security_metadata, b.security_metadata)
    &&& a.evidence@ == b.evidence@
}

impl Clone for AuditEntry {
    fn clone(&self) -> (r: Self)
        ensures
            entry_copy(*self, r),
    {
        let target = match &self.target {
            None => None,
            Some(t) => Some(t.clone()),
        };
        let flags = self.compliance_flags.clone();
        assert(flags@ =~= self.compliance_flags@);
        AuditEntry {
            entry_id: self.entry_id.clone(),
            timestamp_ms: self.timestamp_ms,
            event_type: self.event_type,
            severity: self.severity,
            actor: self.actor.clone(),
            target,
            operation_name: self.operation_name.clone(),
            success: self.success,
            compliance_flags: flags,
            security_metadata: self.security_metadata.clone(),
            evidence: clone_evidence(&self.evidence),
        }
    }
}

/// A fresh entry for an event: no identity or flags yet, stamped now, with
/// default security facts.
pub fn create_audit_entry(
    event_type: AuditEventType,
    severity: AuditSeverity,
    actor: AuditActor,
    operation_name: String,
    success: bool,
    now_ms: u64,
) -> (r: AuditEntry)
    ensures
        r.entry_id@.len() == 0,
        r.timestamp_ms == now_ms,
        r.event_type == event_type,
        r.severity == severity,
        r.actor == actor,
        r.target is None,
        r.operation_name == operation_name,
        r.success == success,
        r.compliance_flags@.len() == 0,
        r.security_metadata.authentication_method@ == "default"@,
        r.security_metadata.authorization_checks@.len() == 0,
        r.security_metadata.cryptographic_operations@.len() == 0,
        r.security_metadata.security_controls_applied@.len() == 0,
        r.security_metadata.suspicious_indicators@.len() == 0,
        r.security_metadata.integrity_hash@ == "placeholder"@,
        r.evidence@.len() == 0,
{
    AuditEntry {
        entry_id: String::new(),
        timestamp_ms: now_ms,
        event_type,
        severity,
        actor,
        target: None,
        operation_name,
        success,
        compliance_flags: Vec::new(),
        security_metadata: SecurityMetadata {
            authentication_method: "default".to_owned(),
            authorization_checks: Vec::new(),
            cryptographic_operations: Vec::new(),
            security_controls_applied: Vec::new(),
            suspicious_indicators: Vec::new(),
            integrity_hash: "placeholder".to_owned(),
        },
        evidence: Vec::new(),
    }
}

// ---------------------------------------------------------------------------
// Alerts and compliance
// ---------------------------------------------------------------------------

#[derive(Debug, Clone, Copy, PartialEq, Eq, Structural)]
pub enum AlertType {
    PolicyViolation,
    UnauthorizedAccess,
    SuspiciousActivity,
    SystemCompromise,
    ConfigurationError,
    PerformanceAnomaly,
    ComplianceDeviation,
    EmergencyCondition,
}

#[derive(Debug, Clone, Copy, PartialEq, Eq, Structural)]
pub enum AlertStatus {
    Active,
    Investigating,
    Mitigated,
    Resolved,
    FalsePositive,
    Escalated,
}

/// A security alert raised from the audit trail.
#[derive(Debug)]
pub struct SecurityAlert {
    pub alert_id: String,
    pub timestamp_ms: u64,
    pub severity: AuditSeverity,
    pub alert_type: AlertType,
    pub title: String,
    pub description: String,
    pub affected_systems: Vec<String>,
    pub recommended_actions: Vec<String>,
    pub evidence: Vec<EvidenceArtifact>,
    pub status: AlertStatus,
}

#[derive(Debug, Clone)]
pub enum ComplianceAction {
    FlagForReview { reviewer: String },
    GenerateReport { report_type: String },
    SendNotification { recipients: Vec<String>, message: String },
    TriggerWorkflow { workflow_name: String },
    Escalate { escalation_level: String, reason: String },
}

#[derive(Debug, Clone, Copy, PartialEq, Eq, Structural)]
pub enum CompliancePriority {
    Low,
    Medium,
    High,
    Critical,
}

/// A compliance rule: the events that trigger it, the conditions under
/// which it fires, and what it then does.
#[derive(Debug, Clone)]
pub struct ComplianceRule {
    pub rule_id: String,
    pub name: String,
    pub description: String,
    pub trigger_events: Vec<AuditEventType>,
    pub conditions: Vec<String>,
    pub actions: Vec<ComplianceAction>,
    pub priority: CompliancePriority,
}

#[derive(Debug, Clone, Copy, PartialEq, Eq, Structural)]
pub enum RequirementCategory {
    Security,
    Privacy,
    Operational,
    Financial,
    Environmental,
    Safety,
}

#[derive(Debug, Clone)]
pub struct RegulatoryRequirement {
    pub requirement_id: String,
    pub description: String,
    pub category: RequirementCategory,
    pub mandatory: bool,
    pub audit_procedures: Vec<String>,
    pub documentation_requirements: Vec<String>,
}

#[derive(Debug, Clone)]
pub struct RegulatoryFramework {
    pub framework_id: String,
    pub name: String,
    pub jurisdiction: String,
    pub applicable_domains: Vec<String>,
    pub requirements: Vec<RegulatoryRequirement>,
    pub audit_frequency: String,
    pub last_audit_date_ms: Option<u64>,
}

#[derive(Debug, Clone)]
pub struct PolicyControl {
    pub control_id: String,
    pub description: String,
    pub implementation_guidance: String,
    pub test_procedures: Vec<String>,
    pub responsible_party: String,
}

#[derive(Debug, Clone)]
pub struct InternalPolicy {
    pub policy_id: String,
    pub title: String,
    pub department: Option<String>,
    pub effective_date_ms: u64,
    pub review_date_ms: Option<u64>,
    pub controls: Vec<PolicyControl>,
}

/// The one condition the engine understands; others are ignored.
pub open spec fn critical_condition() -> Seq<char> {
    "severity == 'Critical'"@
}

pub open spec fn conditions_hold(conditions: Seq<String>, e: AuditEntry) -> bool {
    forall|i: int| 0 <= i < conditions.len() && #[trigger] conditions[i]@ == critical_condition()
        ==> e.severity == AuditSeverity::Critical
}

pub open spec fn rule_fires(rule: ComplianceRule, e: AuditEntry) -> bool {
    rule.trigger_events@.contains(e.event_type) && conditions_hold(rule.conditions@, e)
}

/// Whom the actions ask to look into an entry, in order.
pub open spec fn action_reviewers(actions: Seq<ComplianceAction>) -> Seq<Seq<char>>
    decreases actions.len(),
{
    if actions.len() == 0 {
        seq![]
    } else {
        action_reviewers(actions.drop_last()) + match actions.last() {
            ComplianceAction::FlagForReview { reviewer } => seq![reviewer@],
            _ => Seq::<Seq<char>>::empty(),
        }
    }
}

proof fn lemma_reviewers_push(s: Seq<ComplianceAction>, a: ComplianceAction)
    ensures
        action_reviewers(s.push(a)) == action_reviewers(s) + action_reviewers(seq![a]),
        action_reviewers(seq![a]) == match a {
            ComplianceAction::FlagForReview { reviewer } => seq![reviewer@],
            _ => Seq::<Seq<char>>::empty(),
        },
{
    assert(s.push(a).drop_last() =~= s);
    assert(seq![a].drop_last() =~= Seq::<ComplianceAction>::empty());
    assert(action_reviewers(Seq::<ComplianceAction>::empty()) =~= Seq::<Seq<char>>::empty());
    assert(action_reviewers(seq![a]) =~= match a {
        ComplianceAction::FlagForReview { reviewer } => seq![reviewer@],
        _ => Seq::<Seq<char>>::empty(),
    });
}

/// Whom the rules that fire for an entry ask to look into it, in order.
pub open spec fn review_requests(rules: Seq<ComplianceRule>, e: AuditEntry) -> Seq<Seq<char>>
    decreases rules.len(),
{
    if rules.len() == 0 {
        seq![]
    } else {
        review_requests(rules.drop_last(), e) + if rule_fires(rules.last(), e) {
            action_reviewers(rules.last().actions@)
        } else {
            Seq::<Seq<char>>::empty()
        }
    }
}

pub open spec fn strings_view(v: Seq<String>) -> Seq<Seq<char>> {
    v.map_values(|x: String| x@)
}

/// The alert that asks the named person to look into entry `entry_id`,
/// carrying the entry's evidence.
pub open spec fn is_review_alert(
    a: SecurityAlert,
    entry_id: Seq<char>,
    reviewer: Seq<char>,
    now_ms: u64,
    evidence: Seq<EvidenceArtifact>,
) -> bool {
    &&& a.alert_id@ == "alert_"@ + decimal_chars(now_ms as nat)
    &&& a.timestamp_ms == now_ms
    &&& a.severity == AuditSeverity::Medium
    &&& a.alert_type == AlertType::ComplianceDeviation
    &&& a.title@ == "Compliance Review Required"@
    &&& a.description@ == "Audit entry "@ + entry_id + " requires review by "@ + reviewer
    &&& strings_view(a.affected_systems@) == seq!["audit_system"@]
    &&& strings_view(a.recommended_actions@) == seq!["Review audit entry details"@, "Assess compliance impact"@]
    &&& a.evidence@ == evidence
    &&& a.status == AlertStatus::Active
}

/// Alerts after raising one flag alert per name in the list about `entry_id`.
pub open spec fn alerts_extended(
    before: Seq<SecurityAlert>,
    after: Seq<SecurityAlert>,
    entry_id: Seq<char>,
    reviewers: Seq<Seq<char>>,
    now_ms: u64,
    evidence: Seq<EvidenceArtifact>,
) -> bool {
    &&& after.len() == before.len() + reviewers.len()
    &&& after.subrange(0, before.len() as int) == before
    &&& forall|k: int|
        0 <= k < reviewers.len() ==> is_review_alert(#[trigger] after[before.len() + k], entry_id, reviewers[k], now_ms, evidence)
}

fn review_alert(entry_id: &String, reviewer: &String, now_ms: u64, evidence: &Vec<EvidenceArtifact>) -> (r: SecurityAlert)
    ensures
        is_review_alert(r, entry_id@, reviewer@, now_ms, evidence@),
{
    let mut description = String::new();
    description.append("Audit entry ");
    description.append(entry_id.as_str());
    description.append(" requires review by ");
    description.append(reviewer.as_str());
    let mut affected: Vec<String> = Vec::new();
    affected.push("audit_system".to_owned());
    let mut actions: Vec<String> = Vec::new();
    actions.push("Review audit entry details".to_owned());
    actions.push("Assess compliance impact".to_owned());
    let r = SecurityAlert {
        alert_id: numbered("alert_", now_ms),
        timestamp_ms: now_ms,
        severity: AuditSeverity::Medium,
        alert_type: AlertType::ComplianceDeviation,
        title: "Compliance Review Required".to_owned(),
        description,
        affected_systems: affected,
        recommended_actions: actions,
        evidence: clone_evidence(evidence),
        status: AlertStatus::Active,
    };
    assert(strings_view(r.affected_systems@) =~= seq!["audit_system"@]);
    assert(strings_view(r.recommended_actions@) =~= seq!["Review audit entry details"@, "Assess compliance impact"@]);
    assert(r.description@ =~= "Audit entry "@ + entry_id@ + " requires review by "@ + reviewer@);
    r
}

fn contains_event(events: &Vec<AuditEventType>, e: AuditEventType) -> (r: bool)
    ensures
        r == events@.contains(e),
{
    let mut i: usize = 0;
    while i < events.len()
        invariant
            i <= events.len(),
            forall|j: int| 0 <= j < i ==> events@[j] != e,
        decreases events.len() - i,
    {
        if events[i] == e {
            return true;
        }
        i = i + 1;
    }
    false
}

/// Regulatory frameworks, internal policies and the compliance rules that
/// are checked against every recorded entry.
pub struct ComplianceEngine {
    regulatory_frameworks: Vec<RegulatoryFramework>,
    internal_policies: Vec<InternalPolicy>,
    compliance_rules: Vec<ComplianceRule>,
}

/// The built-in rule: every critical emergency action or mission transfer is
/// flagged for the security team and reported.
pub open spec fn is_critical_operation_rule(r: ComplianceRule) -> bool {
    &&& r.rule_id@ == "critical_operation_audit"@
    &&& r.name@ == "Critical Operation Audit"@
    &&& r.description@ == "All critical operations must be audited"@
    &&& r.trigger_events@ == seq![AuditEventType::EmergencyAction, AuditEventType::MissionTransfer]
    &&& strings_view(r.conditions@) == seq![critical_condition()]
    &&& r.actions@.len() == 2
    &&& (r.actions@[0] matches ComplianceAction::FlagForReview { reviewer } && reviewer@ == "security_team"@)
    &&& (r.actions@[1] matches ComplianceAction::GenerateReport { report_type }
        && report_type@ == "critical_operation_audit"@)
    &&& r.priority == CompliancePriority::High
}

/// The built-in framework behind the built-in rule: an internal, continuous
/// audit of critical operations (emergency actions and mission transfers),
/// with one mandatory security requirement and no audit yet.
pub open spec fn is_critical_operation_framework(f: RegulatoryFramework) -> bool {
    &&& f.framework_id@ == "critical_operation_audit"@
    &&& f.name@ == "Critical Operation Audit"@
    &&& f.jurisdiction@ == "internal"@
    &&& strings_view(f.applicable_domains@) == seq!["emergency_action"@, "mission_transfer"@]
    &&& f.requirements@.len() == 1
    &&& f.requirements@[0].requirement_id@ == "critical_operation_audit"@
    &&& f.requirements@[0].description@ == "All critical operations must be audited"@
    &&& f.requirements@[0].category == RequirementCategory::Security
    &&& f.requirements@[0].mandatory
    &&& f.requirements@[0].audit_procedures@.len() == 0
    &&& f.requirements@[0].documentation_requirements@.len() == 0
    &&& f.audit_frequency@ == "continuous"@
    &&& f.last_audit_date_ms is None
}

impl ComplianceEngine {
    pub closed spec fn frameworks(&self) -> Seq<RegulatoryFramework> {
        self.regulatory_frameworks@
    }

    pub closed spec fn policies(&self) -> Seq<InternalPolicy> {
        self.internal_policies@
    }

    pub closed spec fn rules(&self) -> Seq<ComplianceRule> {
        self.compliance_rules@
    }

    /// An engine with the built-in framework and rule, and no policies.
    pub fn new() -> (r: Self)
        ensures
            r.frameworks().len() == 1,
            is_critical_operation_framework(r.frameworks()[0]),
            r.policies().len() == 0,
            r.rules().len() == 1,
            is_critical_operation_rule(r.rules()[0]),
    {
        let mut events: Vec<AuditEventType> = Vec::new();
        events.push(AuditEventType::EmergencyAction);
        events.push(AuditEventType::MissionTransfer);
        let mut conditions: Vec<String> = Vec::new();
        conditions.push("severity == 'Critical'".to_owned());
        let mut actions: Vec<ComplianceAction> = Vec::new();
        actions.push(ComplianceAction::FlagForReview { reviewer: "security_team".to_owned() });
        actions.push(ComplianceAction::GenerateReport { report_type: "critical_operation_audit".to_owned() });
        let rule = ComplianceRule {
            rule_id: "critical_operation_audit".to_owned(),
            name: "Critical Operation Audit".to_owned(),
            description: "All critical operations must be audited".to_owned(),
            trigger_events: events,
            conditions,
            actions,
            priority: CompliancePriority::High,
        };
        assert(rule.trigger_events@ =~= seq![AuditEventType::EmergencyAction, AuditEventType::MissionTransfer]);
        assert(strings_view(rule.conditions@) =~= seq![critical_condition()]);
        let mut rules: Vec<ComplianceRule> = Vec::new();
        rules.push(rule);
        let requirement = RegulatoryRequirement {
            requirement_id: "critical_operation_audit".to_owned(),
            description: "All critical operations must be audited".to_owned(),
            category: RequirementCategory::Security,
            mandatory: true,
            audit_procedures: Vec::new(),
            documentation_requirements: Vec::new(),
        };
        let mut requirements: Vec<RegulatoryRequirement> = Vec::new();
        requirements.push(requirement);
        let mut domains: Vec<String> = Vec::new();
        domains.push("emergency_action".to_owned());
        domains.push("mission_transfer".to_owned());
        let framework = RegulatoryFramework {
            framework_id: "critical_operation_audit".to_owned(),
            name: "Critical Operation Audit".to_owned(),
            jurisdiction: "internal".to_owned(),
            applicable_domains: domains,
            requirements,
            audit_frequency: "continuous".to_owned(),
            last_audit_date_ms: None,
        };
        assert(strings_view(framework.applicable_domains@) =~= seq!["emergency_action"@, "mission_transfer"@]);
        let mut frameworks: Vec<RegulatoryFramework> = Vec::new();
        frameworks.push(framework);
        ComplianceEngine {
            regulatory_frameworks: frameworks,
            internal_policies: Vec::new(),
            compliance_rules: rules,
        }
    }

    pub fn add_rule(&mut self, rule: ComplianceRule)
        ensures
            final(self).rules() == old(self).rules().push(rule),
            final(self).frameworks() == old(self).frameworks(),
            final(self).policies() == old(self).policies(),
    {
        self.compliance_rules.push(rule);
    }

    pub fn regulatory_framework_count(&self) -> (r: usize)
        ensures
            r == self.frameworks().len(),
    {
        self.regulatory_frameworks.len()
    }

    pub fn rule_count(&self) -> (r: usize)
        ensures
            r == self.rules().len(),
    {
        self.compliance_rules.len()
    }

    /// Whether the conditions hold for the entry; conditions other than the
    /// critical-severity one are ignored.
    fn evaluate_conditions(entry: &AuditEntry, conditions: &Vec<String>) -> (r: bool)
        ensures
            r == conditions_hold(conditions@, *entry),
    {
        let critical = "severity == 'Critical'".to_owned();
        let mut i: usize = 0;
        while i < conditions.len()
            invariant
                i <= conditions.len(),
                critical@ == critical_condition(),
                forall|j: int| 0 <= j < i && #[trigger] conditions@[j]@ == critical_condition()
                    ==> entry.severity == AuditSeverity::Critical,
            decreases conditions.len() - i,
        {
            if conditions[i] == critical {
                if entry.severity != AuditSeverity::Critical {
                    return false;
                }
            }
            i = i + 1;
        }
        true
    }

    /// Carries out one action for an entry: a flag request raises an
    /// alert; reports, notifications, workflows and escalations are handed
    /// to other systems and change nothing here.
    fn execute_action(action: &ComplianceAction, entry: &AuditEntry, alerts: &mut Vec<SecurityAlert>, now_ms: u64)
        ensures
            alerts_extended(old(alerts)@, final(alerts)@, entry.entry_id@, action_reviewers(seq![*action]), now_ms, entry.evidence@),
    {
        proof {
            lemma_reviewers_push(Seq::<ComplianceAction>::empty(), *action);
        }
        match action {
            ComplianceAction::FlagForReview { reviewer } => {
                let alert = review_alert(&entry.entry_id, reviewer, now_ms, &entry.evidence);
                alerts.push(alert);
                assert(final(alerts)@.subrange(0, old(alerts)@.len() as int) =~= old(alerts)@);
            },
            _ => {
                assert(final(alerts)@.subrange(0, old(alerts)@.len() as int) =~= old(alerts)@);
            },
        }
    }

    /// Runs every rule that the entry's event triggers and whose conditions
    /// hold, raising the alerts its actions call for.
    pub fn check_compliance(&self, entry: &AuditEntry, alerts: &mut Vec<SecurityAlert>, now_ms: u64) -> (r: Result<(), AuditError>)
        ensures
            r is Ok,
            alerts_extended(old(alerts)@, final(alerts)@, entry.entry_id@, review_requests(self.rules(), *entry), now_ms, entry.evidence@),
    {
        let ghost start = alerts@;
        proof {
            assert(self.compliance_rules@.subrange(0, 0) =~= Seq::<ComplianceRule>::empty());
            assert(alerts@.subrange(0, alerts@.len() as int) =~= alerts@);
        }
        let mut i: usize = 0;
        while i < self.compliance_rules.len()
            invariant
                i <= self.compliance_rules.len(),
                start == old(alerts)@,
                alerts_extended(start, alerts@, entry.entry_id@, review_requests(self.compliance_rules@.subrange(0, i as int), *entry), now_ms, entry.evidence@),
            decreases self.compliance_rules.len() - i,
        {
            let rule = &self.compliance_rules[i];
            let ghost before = alerts@;
            let ghost done = review_requests(self.compliance_rules@.subrange(0, i as int), *entry);
            if contains_event(&rule.trigger_events, entry.event_type) && Self::evaluate_conditions(entry, &rule.conditions) {
                proof {
                    assert(rule.actions@.subrange(0, 0) =~= Seq::<ComplianceAction>::empty());
                    assert(alerts@.subrange(0, alerts@.len() as int) =~= alerts@);
                }
                let mut k: usize = 0;
                while k < rule.actions.len()
                    invariant
                        k <= rule.actions.len(),
                        alerts_extended(start, before, entry.entry_id@, done, now_ms, entry.evidence@),
                        alerts_extended(before, alerts@, entry.entry_id@, action_reviewers(rule.actions@.subrange(0, k as int)), now_ms, entry.evidence@),
                    decreases rule.actions.len() - k,
                {
                    let ghost mid = alerts@;
                    Self::execute_action(&rule.actions[k], entry, alerts, now_ms);
                    proof {
                        let acts = rule.actions@.subrange(0, k + 1);
                        assert(acts =~= rule.actions@.subrange(0, k as int).push(rule.actions@[k as int]));
                        lemma_reviewers_push(rule.actions@.subrange(0, k as int), rule.actions@[k as int]);
                        lemma_alerts_chain(before, mid, alerts@, entry.entry_id@,
                            action_reviewers(rule.actions@.subrange(0, k as int)),
                            action_reviewers(seq![rule.actions@[k as int]]), now_ms, entry.evidence@);
                        assert(action_reviewers(acts) =~= action_reviewers(rule.actions@.subrange(0, k as int)) + action_reviewers(seq![rule.actions@[k as int]]));
                    }
                    k = k + 1;
                }
                proof {
                    assert(rule.actions@.subrange(0, rule.actions@.len() as int) =~= rule.actions@);
                    lemma_alerts_chain(start, before, alerts@, entry.entry_id@, done, action_reviewers(rule.actions@), now_ms, entry.evidence@);
                    let rs = self.compliance_rules@.subrange(0, i + 1);
                    assert(rs.drop_last() =~= self.compliance_rules@.subrange(0, i as int));
                }
            } else {
                proof {
                    let rs = self.compliance_rules@.subrange(0, i + 1);
                    assert(rs.drop_last() =~= self.compliance_rules@.subrange(0, i as int));
                    assert(done + Seq::<Seq<char>>::empty() =~= done);
                }
            }
            i = i + 1;
        }
        proof {
            assert(self.compliance_rules@.subrange(0, self.compliance_rules@.len() as int) =~= self.compliance_rules@);
        }
        Ok(())
    }
}

proof fn lemma_alerts_chain(
    a: Seq<SecurityAlert>,
    b: Seq<SecurityAlert>,
    c: Seq<SecurityAlert>,
    id: Seq<char>,
    r1: Seq<Seq<char>>,
    r2: Seq<Seq<char>>,
    now_ms: u64,
    evidence: Seq<EvidenceArtifact>,
)
    requires
        alerts_extended(a, b, id, r1, now_ms, evidence),
        alerts_extended(b, c, id, r2, now_ms, evidence),
    ensures
        alerts_extended(a, c, id, r1 + r2, now_ms, evidence),
{
    assert(c.subrange(0, a.len() as int) =~= b.subrange(0, a.len() as int));
    assert forall|k: int| 0 <= k < (r1 + r2).len() implies is_review_alert(#[trigger] c[a.len() + k], id, (r1 + r2)[k], now_ms, evidence) by {
        if k < r1.len() {
            assert(c[a.len() + k] == b[a.len() + k]);
        } else {
            assert(c[a.len() + k] == c[b.len() + (k - r1.len())]);
        }
    }
}

#[derive(Debug, Clone, PartialEq, Eq)]
pub enum AuditError {
    InvalidEntry(String),
    StorageLimitExceeded,
    ReportGenerationError(String),
    AlertNotFound,
    QueryError,
}

// ---------------------------------------------------------------------------
// Retention
// ---------------------------------------------------------------------------

#[derive(Debug, Clone, Copy, PartialEq, Eq, Structural)]
pub enum ArchivalStrategy {
    /// Entries are kept as they are.
    Keep,
    /// Compress after so many days.
    CompressAfter(u32),
    /// Move to cold storage after so many days.
    MoveToColdStorage(u32),
    /// Delete after so many days.
    DeleteAfter(u32),
}

#[derive(Debug, Clone)]
pub struct RetentionPolicy {
    pub max_age_days: u32,
    pub max_entries: usize,
    pub compression_enabled: bool,
    pub archival_strategy: ArchivalStrategy,
    pub prioritized_events: Vec<AuditEventType>,
}

/// An entry survives retention while it is younger than the maximum age,
/// or when it is a high or critical entry of a prioritized kind.
pub open spec fn is_retained(e: AuditEntry, max_age_days: u32, prioritized: Seq<AuditEventType>, now_ms: u64) -> bool {
    let recent = e.timestamp_ms as int > now_ms as int - max_age_days as int * 86_400_000;
    let high = e.severity == AuditSeverity::High || e.severity == AuditSeverity::Critical;
    recent || (high && prioritized.contains(e.event_type))
}

pub open spec fn retained_entries(s: Seq<AuditEntry>, max_age_days: u32, prioritized: Seq<AuditEventType>, now_ms: u64) -> Seq<AuditEntry>
    decreases s.len(),
{
    if s.len() == 0 {
        seq![]
    } else {
        retained_entries(s.drop_last(), max_age_days, prioritized, now_ms) + if is_retained(
            s.last(),
            max_age_days,
            prioritized,
            now_ms,
        ) {
            seq![s.last()]
        } else {
            Seq::<AuditEntry>::empty()
        }
    }
}

/// `k` is the first of the oldest entries.
pub open spec fn is_oldest(s: Seq<AuditEntry>, k: int) -> bool {
    &&& 0 <= k < s.len()
    &&& forall|j: int| 0 <= j < s.len() ==> s[k].timestamp_ms <= #[trigger] s[j].timestamp_ms
    &&& forall|j: int| 0 <= j < k ==> #[trigger] s[j].timestamp_ms > s[k].timestamp_ms
}

pub open spec fn oldest_index(s: Seq<AuditEntry>) -> int {
    choose|k: int| is_oldest(s, k)
}

/// `s` without its `n` oldest entries, removed one at a time.
pub open spec fn without_oldest(s: Seq<AuditEntry>, n: nat) -> Seq<AuditEntry>
    decreases n,
{
    if n == 0 || s.len() == 0 {
        s
    } else {
        without_oldest(s.remove(oldest_index(s)), (n - 1) as nat)
    }
}

/// The store after retention: the retained entries, and of those, when
/// still over the limit, the newest `max_entries`.
pub open spec fn after_retention(
    s: Seq<AuditEntry>,
    max_age_days: u32,
    prioritized: Seq<AuditEventType>,
    max_entries: nat,
    now_ms: u64,
) -> Seq<AuditEntry> {
    let kept = retained_entries(s, max_age_days, prioritized, now_ms);
    if kept.len() > max_entries {
        without_oldest(kept, (kept.len() - max_entries) as nat)
    } else {
        kept
    }
}

proof fn lemma_oldest_exists(s: Seq<AuditEntry>)
    requires
        s.len() > 0,
    ensures
        is_oldest(s, oldest_index(s)),
    decreases s.len(),
{
    if s.len() == 1 {
        assert(is_oldest(s, 0));
    } else {
        let t = s.drop_last();
        lemma_oldest_exists(t);
        let k = oldest_index(t);
        assert(forall|j: int| 0 <= j < t.len() ==> s[j] == t[j]);
        if s.last().timestamp_ms < t[k].timestamp_ms {
            assert forall|j: int| 0 <= j < s.len() implies s[s.len() - 1].timestamp_ms <= #[trigger] s[j].timestamp_ms by {
                if j < t.len() {
                    assert(t[k].timestamp_ms <= t[j].timestamp_ms);
                }
            }
            assert forall|j: int| 0 <= j < s.len() - 1 implies #[trigger] s[j].timestamp_ms > s[s.len() - 1].timestamp_ms by {
                assert(t[k].timestamp_ms <= t[j].timestamp_ms);
            }
            assert(is_oldest(s, s.len() - 1));
        } else {
            assert forall|j: int| 0 <= j < s.len() implies s[k].timestamp_ms <= #[trigger] s[j].timestamp_ms by {
                if j < t.len() {
                    assert(t[k].timestamp_ms <= t[j].timestamp_ms);
                }
            }
            assert forall|j: int| 0 <= j < k implies #[trigger] s[j].timestamp_ms > s[k].timestamp_ms by {
                assert(t[j].timestamp_ms > t[k].timestamp_ms);
            }
            assert(is_oldest(s, k));
        }
    }
}

proof fn lemma_without_oldest_len(s: Seq<AuditEntry>, n: nat)
    requires
        n <= s.len(),
    ensures
        without_oldest(s, n).len() == s.len() - n,
    decreases n,
{
    if n > 0 {
        lemma_oldest_exists(s);
        lemma_without_oldest_len(s.remove(oldest_index(s)), (n - 1) as nat);
    }
}

/// Retention never leaves more entries than the limit, and never more than
/// there were.
pub proof fn lemma_retention_within_limit(
    s: Seq<AuditEntry>,
    max_age_days: u32,
    prioritized: Seq<AuditEventType>,
    max_entries: nat,
    now_ms: u64,
)
    ensures
        after_retention(s, max_age_days, prioritized, max_entries, now_ms).len() <= max_entries,
        after_retention(s, max_age_days, prioritized, max_entries, now_ms).len() <= s.len(),
{
    lemma_retained_len(s, max_age_days, prioritized, now_ms);
    let kept = retained_entries(s, max_age_days, prioritized, now_ms);
    if kept.len() > max_entries {
        lemma_without_oldest_len(kept, (kept.len() - max_entries) as nat);
    }
}

proof fn lemma_retained_len(s: Seq<AuditEntry>, max_age_days: u32, prioritized: Seq<AuditEventType>, now_ms: u64)
    ensures
        retained_entries(s, max_age_days, prioritized, now_ms).len() <= s.len(),
    decreases s.len(),
{
    if s.len() > 0 {
        lemma_retained_len(s.drop_last(), max_age_days, prioritized, now_ms);
    }
}

fn find_oldest(s: &Vec<AuditEntry>) -> (k: usize)
    requires
        s.len() > 0,
    ensures
        is_oldest(s@, k as int),
        k as int == oldest_index(s@),
{
    let mut k: usize = 0;
    let mut i: usize = 1;
    while i < s.len()
        invariant
            0 <= k < i <= s.len(),
            forall|j: int| 0 <= j < i ==> s@[k as int].timestamp_ms <= #[trigger] s@[j].timestamp_ms,
            forall|j: int| 0 <= j < k ==> #[trigger] s@[j].timestamp_ms > s@[k as int].timestamp_ms,
        decreases s.len() - i,
    {
        if s[i].timestamp_ms < s[k].timestamp_ms {
            k = i;
        }
        i = i + 1;
    }
    proof {
        let o = oldest_index(s@);
        assert(is_oldest(s@, k as int));
        assert(is_oldest(s@, o));
        if o < k {
            assert(s@[o].timestamp_ms > s@[k as int].timestamp_ms);
        } else if o > k {
            assert(s@[k as int].timestamp_ms > s@[o].timestamp_ms);
        }
    }
    k
}

fn is_entry_retained(e: &AuditEntry, policy: &RetentionPolicy, now_ms: u64) -> (r: bool)
    ensures
        r == is_retained(*e, policy.max_age_days, policy.prioritized_events@, now_ms),
{
    let max_age_ms: u64 = policy.max_age_days as u64 * 86_400_000;
    let recent = if now_ms >= max_age_ms { e.timestamp_ms > now_ms - max_age_ms } else { true };
    let high = e.severity == AuditSeverity::High || e.severity == AuditSeverity::Critical;
    recent || (high && contains_event(&policy.prioritized_events, e.event_type))
}

// ---------------------------------------------------------------------------
// Queries
// ---------------------------------------------------------------------------

#[derive(Debug, Clone)]
pub enum ActorFilter {
    OperatorId(String),
    DroneId(String),
    StationId(String),
    SystemComponent(String),
}

/// A query over the trail; every given criterion must hold.
#[derive(Debug)]
pub struct AuditQuery {
    pub start_time_ms: Option<u64>,
    pub end_time_ms: Option<u64>,
    pub event_types: Vec<AuditEventType>,
    pub min_severity: Option<AuditSeverity>,
    pub actor_filter: Option<ActorFilter>,
    pub compliance_flags: Vec<ComplianceFlag>,
    pub limit: Option<usize>,
}

pub open spec fn actor_matches(actor: AuditActor, filter: ActorFilter) -> bool {
    match (actor, filter) {
        (AuditActor::HumanOperator { operator_id, .. }, ActorFilter::OperatorId(id)) => operator_id@ == id@,
        (AuditActor::Drone { drone_id, .. }, ActorFilter::DroneId(id)) => drone_id@ == id@,
        (AuditActor::Station { station_id, .. }, ActorFilter::StationId(id)) => station_id@ == id@,
        (AuditActor::System { component, .. }, ActorFilter::SystemComponent(name)) => component@ == name@,
        _ => false,
    }
}

/// An entry matches a query when it lies in the time range, has one of the
/// listed kinds (if any are listed), is at least as severe as the minimum,
/// was performed by the filtered actor, and carries one of the listed
/// compliance flags (if any are listed).
pub open spec fn query_matches(e: AuditEntry, q: AuditQuery) -> bool {
    &&& (q.start_time_ms matches Some(t) ==> e.timestamp_ms >= t)
    &&& (q.end_time_ms matches Some(t) ==> e.timestamp_ms <= t)
    &&& (q.event_types@.len() > 0 ==> q.event_types@.contains(e.event_type))
    &&& (q.min_severity matches Some(m) ==> severity_rank(e.severity) >= severity_rank(m))
    &&& (q.actor_filter matches Some(f) ==> actor_matches(e.actor, f))
    &&& (q.compliance_flags@.len() > 0 ==> exists|i: int, j: int|
        0 <= i < e.compliance_flags@.len() && 0 <= j < q.compliance_flags@.len()
            && #[trigger] same_flag(e.compliance_flags@[i], q.compliance_flags@[j]))
}

pub open spec fn matching_entries(s: Seq<AuditEntry>, q: AuditQuery) -> Seq<AuditEntry>
    decreases s.len(),
{
    if s.len() == 0 {
        seq![]
    } else {
        matching_entries(s.drop_last(), q) + if query_matches(s.last(), q) {
            seq![s.last()]
        } else {
            Seq::<AuditEntry>::empty()
        }
    }
}

/// A query returns only entries of the trail, in trail order, and each
/// lies inside the requested time range, has one of the requested event
/// types (when any are listed) and at least the requested severity.
pub proof fn lemma_query_results_respect_filters(s: Seq<AuditEntry>, q: AuditQuery, i: int)
    requires
        0 <= i < matching_entries(s, q).len(),
    ensures
        s.contains(matching_entries(s, q)[i]),
        matching_entries(s, q).len() <= s.len(),
        q.start_time_ms matches Some(t) ==> matching_entries(s, q)[i].timestamp_ms >= t,
        q.end_time_ms matches Some(t) ==> matching_entries(s, q)[i].timestamp_ms <= t,
        q.event_types@.len() > 0 ==> q.event_types@.contains(matching_entries(s, q)[i].event_type),
        q.min_severity matches Some(m) ==> severity_rank(matching_entries(s, q)[i].severity) >= severity_rank(m),
    decreases s.len(),
{
    let prev = matching_entries(s.drop_last(), q);
    lemma_matching_len(s.drop_last(), q);
    if i < prev.len() {
        lemma_query_results_respect_filters(s.drop_last(), q, i);
        assert(matching_entries(s, q)[i] == prev[i]);
        let k = choose|k: int| 0 <= k < s.drop_last().len() && s.drop_last()[k] == prev[i];
        assert(s[k] == prev[i]);
    } else {
        assert(matching_entries(s, q)[i] == s.last());
        assert(s[s.len() - 1] == s.last());
    }
}

proof fn lemma_matching_len(s: Seq<AuditEntry>, q: AuditQuery)
    ensures
        matching_entries(s, q).len() <= s.len(),
    decreases s.len(),
{
    if s.len() > 0 {
        lemma_matching_len(s.drop_last(), q);
    }
}

/// An entry whose event type is not among the listed ones never comes back
/// from a query, whatever else the trail holds.
pub proof fn lemma_unlisted_event_types_excluded(s: Seq<AuditEntry>, q: AuditQuery, e: AuditEntry)
    requires
        q.event_types@.len() > 0,
        !q.event_types@.contains(e.event_type),
    ensures
        !matching_entries(s, q).contains(e),
{
    if matching_entries(s, q).contains(e) {
        let i = choose|i: int| 0 <= i < matching_entries(s, q).len() && matching_entries(s, q)[i] == e;
        lemma_query_results_respect_filters(s, q, i);
    }
}

fn actor_matches_filter(actor: &AuditActor, filter: &ActorFilter) -> (r: bool)
    ensures
        r == actor_matches(*actor, *filter),
{
    match (actor, filter) {
        (AuditActor::HumanOperator { operator_id, .. }, ActorFilter::OperatorId(id)) => *operator_id == *id,
        (AuditActor::Drone { drone_id, .. }, ActorFilter::DroneId(id)) => *drone_id == *id,
        (AuditActor::Station { station_id, .. }, ActorFilter::StationId(id)) => *station_id == *id,
        (AuditActor::System { component, .. }, ActorFilter::SystemComponent(name)) => *component == *name,
        _ => false,
    }
}

fn any_flag_matches(flags: &Vec<ComplianceFlag>, wanted: &Vec<ComplianceFlag>) -> (r: bool)
    ensures
        r == exists|i: int, j: int|
            0 <= i < flags@.len() && 0 <= j < wanted@.len() && #[trigger] same_flag(flags@[i], wanted@[j]),
{
    let mut i: usize = 0;
    while i < flags.len()
        invariant
            i <= flags.len(),
            forall|a: int, b: int| 0 <= a < i && 0 <= b < wanted@.len() ==> !#[trigger] same_flag(flags@[a], wanted@[b]),
        decreases flags.len() - i,
    {
        let mut j: usize = 0;
        while j < wanted.len()
            invariant
                i < flags.len(),
                j <= wanted.len(),
                forall|a: int, b: int| 0 <= a < i && 0 <= b < wanted@.len() ==> !#[trigger] same_flag(flags@[a], wanted@[b]),
                forall|b: int| 0 <= b < j ==> !#[trigger] same_flag(flags@[i as int], wanted@[b]),
            decreases wanted.len() - j,
        {
            if flags_equal(&flags[i], &wanted[j]) {
                return true;
            }
            j = j + 1;
        }
        i = i + 1;
    }
    false
}

fn matches_query(entry: &AuditEntry, query: &AuditQuery) -> (r: bool)
    ensures
        r == query_matches(*entry, *query),
{
    if let Some(t) = query.start_time_ms {
        if entry.timestamp_ms < t {
            return false;
        }
    }
    if let Some(t) = query.end_time_ms {
        if entry.timestamp_ms > t {
            return false;
        }
    }
    if query.event_types.len() > 0 && !contains_event(&query.event_types, entry.event_type) {
        return false;
    }
    if let Some(m) = &query.min_severity {
        if entry.severity.rank() < m.rank() {
            return false;
        }
    }
    if let Some(f) = &query.actor_filter {
        if !actor_matches_filter(&entry.actor, f) {
            return false;
        }
    }
    if query.compliance_flags.len() > 0 {
        if !any_flag_matches(&entry.compliance_flags, &query.compliance_flags) {
            return false;
        }
    }
    true
}

// ---------------------------------------------------------------------------
// Reports
// ---------------------------------------------------------------------------

#[derive(Debug, Clone, Copy, PartialEq, Eq, Structural)]
pub enum ReportFormat {
    PDF,
    HTML,
    JSON,
    CSV,
    XML,
}

#[derive(Debug, Clone)]
pub struct ReportSection {
    pub section_id: String,
    pub title: String,
    pub data_sources: Vec<String>,
    pub aggregation_rules: Vec<String>,
    pub visualization_hints: Vec<String>,
}

/// A report filter: a field, an operator, and the filter value when it is
/// a text.
#[derive(Debug, Clone)]
pub struct ReportFilter {
    pub field: String,
    pub operator: String,
    pub value: Option<String>,
    pub description: String,
}

#[derive(Debug, Clone)]
pub struct ReportTemplate {
    pub template_id: String,
    pub name: String,
    pub description: String,
    pub sections: Vec<ReportSection>,
    pub filters: Vec<ReportFilter>,
    pub format: ReportFormat,
}

#[derive(Debug, Clone)]
pub enum ScheduleFrequency {
    Daily,
    Weekly,
    Monthly,
    Quarterly,
    Annually,
    Custom(String),
}

#[derive(Debug, Clone)]
pub enum ReportStatus {
    Success,
    Warning { messages: Vec<String> },
    Error { error_message: String },
}

/// What was generated for a report request.
#[derive(Debug)]
pub struct GeneratedReport {
    pub report_id: String,
    pub template_id: String,
    pub generated_at_ms: u64,
    pub file_path: String,
    pub file_hash: String,
    pub generation_duration_ms: u64,
    pub status: ReportStatus,
}

/// A request for a report from a template over a time range, with filters.
#[derive(Debug, Clone)]
pub struct ReportRequest {
    pub template_id: String,
    pub time_range_ms: Option<(u64, u64)>,
    pub filters: Vec<ReportFilter>,
}

/// Name of an event kind as it appears in reports.
pub open spec fn event_type_name(e: AuditEventType) -> Seq<char> {
    match e {
        AuditEventType::MissionTransfer => "MissionTransfer"@,
        AuditEventType::SecurityAuthentication => "SecurityAuthentication"@,
        AuditEventType::AuthorizationCheck => "AuthorizationCheck"@,
        AuditEventType::WeatherValidation => "WeatherValidation"@,
        AuditEventType::DroneCommand => "DroneCommand"@,
        AuditEventType::StationOperation => "StationOperation"@,
        AuditEventType::PolicyViolation => "PolicyViolation"@,
        AuditEventType::EmergencyAction => "EmergencyAction"@,
        AuditEventType::SystemHealthEvent => "SystemHealthEvent"@,
        AuditEventType::ComplianceAudit => "ComplianceAudit"@,
    }
}

impl AuditEventType {
    pub fn name(&self) -> (r: String)
        ensures
            r@ == event_type_name(*self),
    {
        match self {
            AuditEventType::MissionTransfer => "MissionTransfer".to_owned(),
            AuditEventType::SecurityAuthentication => "SecurityAuthentication".to_owned(),
            AuditEventType::AuthorizationCheck => "AuthorizationCheck".to_owned(),
            AuditEventType::WeatherValidation => "WeatherValidation".to_owned(),
            AuditEventType::DroneCommand => "DroneCommand".to_owned(),
            AuditEventType::StationOperation => "StationOperation".to_owned(),
            AuditEventType::PolicyViolation => "PolicyViolation".to_owned(),
            AuditEventType::EmergencyAction => "EmergencyAction".to_owned(),
            AuditEventType::SystemHealthEvent => "SystemHealthEvent".to_owned(),
            AuditEventType::ComplianceAudit => "ComplianceAudit".to_owned(),
        }
    }
}

/// Severity named by a filter value, if it names one it can filter by.
pub open spec fn severity_named(v: Seq<char>) -> Option<AuditSeverity> {
    if v == "Low"@ {
        Some(AuditSeverity::Low)
    } else if v == "Medium"@ {
        Some(AuditSeverity::Medium)
    } else if v == "High"@ {
        Some(AuditSeverity::High)
    } else if v == "Critical"@ {
        Some(AuditSeverity::Critical)
    } else {
        None
    }
}

/// Whether an entry passes a filter: `severity gte` keeps entries at least
/// as severe as the named level (none for an unknown level), `event_type eq`
/// keeps entries of the named kind; a filter without a text value, and any
/// other field and operator, keeps every entry.
pub open spec fn filter_passes(e: AuditEntry, f: ReportFilter) -> bool {
    if f.field@ == "severity"@ && f.operator@ == "gte"@ {
        match f.value {
            Some(v) => match severity_named(v@) {
                Some(level) => severity_rank(e.severity) >= severity_rank(level),
                None => false,
            },
            None => true,
        }
    } else if f.field@ == "event_type"@ && f.operator@ == "eq"@ {
        match f.value {
            Some(v) => event_type_name(e.event_type) == v@,
            None => true,
        }
    } else {
        true
    }
}

/// An entry belongs in a report when it lies in the requested time range
/// and passes every filter.
pub open spec fn report_selects(e: AuditEntry, r: ReportRequest) -> bool {
    &&& (r.time_range_ms matches Some((start, end)) ==> start <= e.timestamp_ms <= end)
    &&& forall|i: int| 0 <= i < r.filters@.len() ==> #[trigger] filter_passes(e, r.filters@[i])
}

pub open spec fn report_entries(s: Seq<AuditEntry>, r: ReportRequest) -> Seq<AuditEntry>
    decreases s.len(),
{
    if s.len() == 0 {
        seq![]
    } else {
        report_entries(s.drop_last(), r) + if report_selects(s.last(), r) {
            seq![s.last()]
        } else {
            Seq::<AuditEntry>::empty()
        }
    }
}

fn text_is(s: &String, lit: &str) -> (r: bool)
    ensures
        r == (s@ == lit@),
{
    let t = lit.to_owned();
    *s == t
}

/// Whether an entry passes a report filter.
pub fn evaluate_filter(entry: &AuditEntry, filter: &ReportFilter) -> (r: bool)
    ensures
        r == filter_passes(*entry, *filter),
{
    if text_is(&filter.field, "severity") && text_is(&filter.operator, "gte") {
        match &filter.value {
            Some(v) => {
                let level = if text_is(v, "Low") {
                    AuditSeverity::Low
                } else if text_is(v, "Medium") {
                    AuditSeverity::Medium
                } else if text_is(v, "High") {
                    AuditSeverity::High
                } else if text_is(v, "Critical") {
                    AuditSeverity::Critical
                } else {
                    return false;
                };
                entry.severity.rank() >= level.rank()
            },
            None => true,
        }
    } else if text_is(&filter.field, "event_type") && text_is(&filter.operator, "eq") {
        match &filter.value {
            Some(v) => entry.event_type.name() == *v,
            None => true,
        }
    } else {
        true
    }
}

/// Whether an entry passes every report filter.
pub fn apply_filters(entry: &AuditEntry, filters: &Vec<ReportFilter>) -> (r: bool)
    ensures
        r == forall|i: int| 0 <= i < filters@.len() ==> #[trigger] filter_passes(*entry, filters@[i]),
{
    let mut i: usize = 0;
    while i < filters.len()
        invariant
            i <= filters.len(),
            forall|j: int| 0 <= j < i ==> #[trigger] filter_passes(*entry, filters@[j]),
        decreases filters.len() - i,
    {
        if !evaluate_filter(entry, &filters[i]) {
            return false;
        }
        i = i + 1;
    }
    true
}

/// The entries a report request selects, in trail order.
pub fn select_report_entries<'a>(request: &ReportRequest, entries: &'a Vec<AuditEntry>) -> (r: Vec<&'a AuditEntry>)
    ensures
        r@.map_values(|x: &AuditEntry| *x) == report_entries(entries@, *request),
{
    let mut out: Vec<&'a AuditEntry> = Vec::new();
    let mut i: usize = 0;
    while i < entries.len()
        invariant
            i <= entries.len(),
            out@.map_values(|x: &AuditEntry| *x) == report_entries(entries@.subrange(0, i as int), *request),
        decreases entries.len() - i,
    {
        let e = &entries[i];
        let in_range = match request.time_range_ms {
            Some((start, end)) => start <= e.timestamp_ms && e.timestamp_ms <= end,
            None => true,
        };
        proof {
            let t = entries@.subrange(0, i + 1);
            assert(t.drop_last() =~= entries@.subrange(0, i as int));
        }
        let ghost before = out@;
        if in_range && apply_filters(e, &request.filters) {
            out.push(e);
            assert(out@.map_values(|x: &AuditEntry| *x) =~= before.map_values(|x: &AuditEntry| *x).push(*e));
        }
        i = i + 1;
    }
    assert(entries@.subrange(0, entries@.len() as int) =~= entries@);
    out
}

pub open spec fn has_template(ts: Seq<ReportTemplate>, id: Seq<char>) -> bool {
    exists|k: int| 0 <= k < ts.len() && #[trigger] ts[k].template_id@ == id
}

pub open spec fn is_first_template(ts: Seq<ReportTemplate>, id: Seq<char>, k: int) -> bool {
    &&& 0 <= k < ts.len()
    &&& ts[k].template_id@ == id
    &&& forall|j: int| 0 <= j < k ==> #[trigger] ts[j].template_id@ != id
}

/// No two templates share an identifier.
pub open spec fn unique_template_ids(ts: Seq<ReportTemplate>) -> bool {
    forall|i: int, j: int| 0 <= i < j < ts.len() ==> #[trigger] ts[i].template_id@ != #[trigger] ts[j].template_id@
}

fn find_template(ts: &Vec<ReportTemplate>, id: &String) -> (r: Option<usize>)
    ensures
        r matches Some(k) ==> is_first_template(ts@, id@, k as int),
        r is None ==> !has_template(ts@, id@),
{
    let mut i: usize = 0;
    while i < ts.len()
        invariant
            i <= ts.len(),
            forall|j: int| 0 <= j < i ==> #[trigger] ts@[j].template_id@ != id@,
        decreases ts.len() - i,
    {
        if ts[i].template_id == *id {
            return Some(i);
        }
        i = i + 1;
    }
    None
}

/// What generating a report for `request` at `now_ms` gives, from the
/// templates and the reports `before` the call to those `after` it: an
/// unknown template and a format other than JSON or CSV are refused and
/// record nothing; otherwise one report named by the time is appended and
/// its identifier returned.
pub open spec fn report_generation(
    templates: Seq<ReportTemplate>,
    before: Seq<GeneratedReport>,
    after: Seq<GeneratedReport>,
    request: ReportRequest,
    now_ms: u64,
    r: Result<String, AuditError>,
) -> bool {
    &&& !has_template(templates, request.template_id@) ==> ((r matches Err(
        AuditError::ReportGenerationError(m),
    ) && m@ == "Template not found"@) && after == before)
    &&& has_template(templates, request.template_id@) ==> exists|k: int|
        is_first_template(templates, request.template_id@, k) && {
            let format = templates[k].format;
            &&& (format != ReportFormat::JSON && format != ReportFormat::CSV) ==> (r matches Err(
                AuditError::ReportGenerationError(m),
            ) && m@ == "Unsupported format"@) && after == before
            &&& (format == ReportFormat::JSON || format == ReportFormat::CSV) ==> (r matches Ok(id) && {
                let g = after.last();
                &&& id@ == "report_"@ + decimal_chars(now_ms as nat)
                &&& after.len() == before.len() + 1
                &&& after.drop_last() == before
                &&& g.report_id@ == id@
                &&& g.template_id@ == request.template_id@
                &&& g.generated_at_ms == now_ms
                &&& g.file_path@ == "/audit_reports/"@ + request.template_id@ + "_"@ + decimal_chars(
                    (now_ms / 1000) as nat,
                ) + ".json"@
                &&& g.file_hash@ == "placeholder_hash"@
                &&& g.generation_duration_ms == 1000
                &&& g.status is Success
            })
        }
}

/// Report templates by identifier, and the reports generated so far.
pub struct AuditReportGenerator {
    report_templates: Vec<ReportTemplate>,
    generated_reports: Vec<GeneratedReport>,
}

impl AuditReportGenerator {
    pub closed spec fn templates(&self) -> Seq<ReportTemplate> {
        self.report_templates@
    }

    pub closed spec fn reports(&self) -> Seq<GeneratedReport> {
        self.generated_reports@
    }

    pub fn new() -> (r: Self)
        ensures
            r.templates().len() == 0,
            r.reports().len() == 0,
    {
        AuditReportGenerator { report_templates: Vec::new(), generated_reports: Vec::new() }
    }

    /// Adds a template, replacing one with the same identifier.
    pub fn add_template(&mut self, template: ReportTemplate)
        ensures
            has_template(old(self).templates(), template.template_id@) ==> exists|k: int|
                is_first_template(old(self).templates(), template.template_id@, k)
                    && final(self).templates() == old(self).templates().update(k, template),
            !has_template(old(self).templates(), template.template_id@) ==> final(self).templates()
                == old(self).templates().push(template),
            unique_template_ids(old(self).templates()) ==> unique_template_ids(final(self).templates()),
            final(self).reports() == old(self).reports(),
    {
        match find_template(&self.report_templates, &template.template_id) {
            Some(k) => {
                let ghost id = template.template_id@;
                self.report_templates.set(k, template);
                assert(is_first_template(old(self).templates(), id, k as int));
            },
            None => {
                self.report_templates.push(template);
            },
        }
    }

    pub fn report_count(&self) -> (r: usize)
        ensures
            r == self.reports().len(),
    {
        self.generated_reports.len()
    }

    /// Generates a report for the request: refuses an unknown template and
    /// formats other than JSON and CSV, and otherwise records a report named
    /// by the time and returns its identifier.
    pub fn generate_report(&mut self, request: &ReportRequest, now_ms: u64) -> (r: Result<String, AuditError>)
        ensures
            final(self).templates() == old(self).templates(),
            report_generation(old(self).templates(), old(self).reports(), final(self).reports(), *request, now_ms, r),
    {
        let k = match find_template(&self.report_templates, &request.template_id) {
            None => return Err(AuditError::ReportGenerationError("Template not found".to_owned())),
            Some(k) => k,
        };
        let format = self.report_templates[k].format;
        if format != ReportFormat::JSON && format != ReportFormat::CSV {
            return Err(AuditError::ReportGenerationError("Unsupported format".to_owned()));
        }
        let report_id = numbered("report_", now_ms);
        let mut file_path = String::new();
        file_path.append("/audit_reports/");
        file_path.append(request.template_id.as_str());
        file_path.append("_");
        append_decimal(&mut file_path, now_ms / 1000);
        file_path.append(".json");
        let report = GeneratedReport {
            report_id: report_id.clone(),
            template_id: request.template_id.clone(),
            generated_at_ms: now_ms,
            file_path,
            file_hash: "placeholder_hash".to_owned(),
            generation_duration_ms: 1000,
            status: ReportStatus::Success,
        };
        assert(report.file_path@ =~= "/audit_reports/"@ + request.template_id@ + "_"@ + decimal_chars(
            (now_ms / 1000) as nat,
        ) + ".json"@);
        self.generated_reports.push(report);
        assert(self.generated_reports@.drop_last() =~= old(self).reports());
        Ok(report_id)
    }
}

// ---------------------------------------------------------------------------
// The audit system
// ---------------------------------------------------------------------------

/// The identifier an entry is recorded under: its own, or one made from the
/// time when it has none.
pub open spec fn recorded_id(entry: AuditEntry, now_ms: u64) -> Seq<char> {
    if entry.entry_id@.len() == 0 {
        "audit_"@ + decimal_chars(now_ms as nat)
    } else {
        entry.entry_id@
    }
}

/// The entry as recorded: under `id`, and stamped now when it had no time.
pub open spec fn stamped(entry: AuditEntry, id: String, now_ms: u64) -> AuditEntry {
    AuditEntry {
        entry_id: id,
        timestamp_ms: if entry.timestamp_ms == 0 { now_ms } else { entry.timestamp_ms },
        ..entry
    }
}

pub open spec fn active_alerts(s: Seq<SecurityAlert>) -> Seq<SecurityAlert>
    decreases s.len(),
{
    if s.len() == 0 {
        seq![]
    } else {
        active_alerts(s.drop_last()) + if s.last().status == AlertStatus::Active || s.last().status
            == AlertStatus::Investigating {
            seq![s.last()]
        } else {
            Seq::<SecurityAlert>::empty()
        }
    }
}

/// The audit trail with its retention policy, compliance engine, report
/// generator and the alerts raised so far.
pub struct AuditSystem {
    audit_store: Vec<AuditEntry>,
    max_entries: usize,
    retention_policy: RetentionPolicy,
    compliance_engine: ComplianceEngine,
    report_generator: AuditReportGenerator,
    alerts: Vec<SecurityAlert>,
}

impl AuditSystem {
    /// Oldest recorded first.
    pub closed spec fn entries(&self) -> Seq<AuditEntry> {
        self.audit_store@
    }

    pub closed spec fn limit(&self) -> nat {
        self.max_entries as nat
    }

    pub closed spec fn policy(&self) -> RetentionPolicy {
        self.retention_policy
    }

    pub closed spec fn rules(&self) -> Seq<ComplianceRule> {
        self.compliance_engine.rules()
    }

    pub closed spec fn alert_list(&self) -> Seq<SecurityAlert> {
        self.alerts@
    }

    pub closed spec fn generator(&self) -> AuditReportGenerator {
        self.report_generator
    }

    /// An empty trail holding up to `max_entries`, keeping entries a year
    /// and high-severity mission transfers, authentications, emergency
    /// actions and policy violations beyond that, with the built-in
    /// compliance rule.
    pub fn new(max_entries: usize) -> (r: Self)
        ensures
            r.entries().len() == 0,
            r.alert_list().len() == 0,
            r.limit() == max_entries,
            r.policy().max_age_days == 365,
            r.policy().max_entries == max_entries,
            r.policy().compression_enabled,
            r.policy().archival_strategy == ArchivalStrategy::CompressAfter(90),
            r.policy().prioritized_events@ == seq![
                AuditEventType::MissionTransfer,
                AuditEventType::SecurityAuthentication,
                AuditEventType::EmergencyAction,
                AuditEventType::PolicyViolation,
            ],
            r.rules().len() == 1,
            is_critical_operation_rule(r.rules()[0]),
            r.generator().templates().len() == 0,
            r.generator().reports().len() == 0,
    {
        let mut prioritized: Vec<AuditEventType> = Vec::new();
        prioritized.push(AuditEventType::MissionTransfer);
        prioritized.push(AuditEventType::SecurityAuthentication);
        prioritized.push(AuditEventType::EmergencyAction);
        prioritized.push(AuditEventType::PolicyViolation);
        let r = AuditSystem {
            audit_store: Vec::new(),
            max_entries,
            retention_policy: RetentionPolicy {
                max_age_days: 365,
                max_entries,
                compression_enabled: true,
                archival_strategy: ArchivalStrategy::CompressAfter(90),
                prioritized_events: prioritized,
            },
            compliance_engine: ComplianceEngine::new(),
            report_generator: AuditReportGenerator::new(),
            alerts: Vec::new(),
        };
        assert(r.retention_policy.prioritized_events@ =~= seq![
            AuditEventType::MissionTransfer,
            AuditEventType::SecurityAuthentication,
            AuditEventType::EmergencyAction,
            AuditEventType::PolicyViolation,
        ]);
        r
    }

    pub fn entry_count(&self) -> (r: usize)
        ensures
            r == self.entries().len(),
    {
        self.audit_store.len()
    }

    pub fn max_entries(&self) -> (r: usize)
        ensures
            r == self.limit(),
    {
        self.max_entries
    }

    /// Records an entry: gives it an identifier made from the time when it
    /// has none and stamps it now when it has no time, raises the alerts the
    /// compliance rules call for, stores it, and applies the retention
    /// policy once the store is over its limit. Returns the identifier.
    pub fn record_event(&mut self, entry: AuditEntry, now_ms: u64) -> (r: Result<String, AuditError>)
        ensures
            r matches Ok(id) && id@ == recorded_id(entry, now_ms) && {
                let e = stamped(entry, id, now_ms);
                let stored = old(self).entries().push(e);
                &&& final(self).entries() == if stored.len() > old(self).limit() {
                    after_retention(
                        stored,
                        old(self).policy().max_age_days,
                        old(self).policy().prioritized_events@,
                        old(self).limit(),
                        now_ms,
                    )
                } else {
                    stored
                }
                &&& alerts_extended(
                    old(self).alert_list(),
                    final(self).alert_list(),
                    id@,
                    review_requests(old(self).rules(), e),
                    now_ms,
                    e.evidence@,
                )
            },
            final(self).limit() == old(self).limit(),
            final(self).policy() == old(self).policy(),
            final(self).rules() == old(self).rules(),
            final(self).generator() == old(self).generator(),
    {
        let mut entry = entry;
        let id: String = if entry.entry_id.as_str().is_empty() {
            let id = numbered("audit_", now_ms);
            entry.entry_id = id.clone();
            id
        } else {
            entry.entry_id.clone()
        };
        if entry.timestamp_ms == 0 {
            entry.timestamp_ms = now_ms;
        }
        let _ = self.compliance_engine.check_compliance(&entry, &mut self.alerts, now_ms);
        self.audit_store.push(entry);
        if self.audit_store.len() > self.max_entries {
            self.enforce_retention_policy(now_ms);
        }
        Ok(id)
    }

    /// Drops entries past the maximum age unless they are high-severity
    /// entries of a prioritized kind, then, while still over the limit,
    /// the oldest entries.
    fn enforce_retention_policy(&mut self, now_ms: u64)
        ensures
            final(self).entries() == after_retention(
                old(self).entries(),
                old(self).policy().max_age_days,
                old(self).policy().prioritized_events@,
                old(self).limit(),
                now_ms,
            ),
            final(self).limit() == old(self).limit(),
            final(self).policy() == old(self).policy(),
            final(self).rules() == old(self).rules(),
            final(self).alert_list() == old(self).alert_list(),
            final(self).generator() == old(self).generator(),
    {
        let mut pending: Vec<AuditEntry> = Vec::new();
        std::mem::swap(&mut pending, &mut self.audit_store);
        let ghost all = pending@;
        let ghost days = self.retention_policy.max_age_days;
        let ghost prio = self.retention_policy.prioritized_events@;
        let mut kept: Vec<AuditEntry> = Vec::new();
        while pending.len() > 0
            invariant
                pending@.len() <= all.len(),
                pending@ == all.subrange(all.len() - pending@.len(), all.len() as int),
                kept@ == retained_entries(all.subrange(0, all.len() - pending@.len()), days, prio, now_ms),
                days == self.retention_policy.max_age_days,
                prio == self.retention_policy.prioritized_events@,
            decreases pending.len(),
        {
            let ghost n = all.len() - pending@.len();
            let e = pending.remove(0);
            proof {
                let t = all.subrange(0, n + 1);
                assert(t.drop_last() =~= all.subrange(0, n));
                assert(pending@ =~= all.subrange(all.len() - pending@.len(), all.len() as int));
            }
            if is_entry_retained(&e, &self.retention_policy, now_ms) {
                kept.push(e);
            }
        }
        assert(all.subrange(0, all.len() as int) =~= all);
        let ghost total: nat = if kept@.len() > self.max_entries { (kept@.len() - self.max_entries) as nat } else { 0 };
        let ghost start = kept@;
        while kept.len() > self.max_entries
            invariant
                without_oldest(kept@, (kept@.len() - start.len() + total) as nat) == without_oldest(start, total),
                kept@.len() <= start.len(),
                start.len() - kept@.len() <= total,
                total == (if start.len() > self.max_entries { start.len() - self.max_entries } else { 0 }),
            decreases kept.len(),
        {
            let k = find_oldest(&kept);
            let ghost before = kept@;
            kept.remove(k);
            proof {
                assert(without_oldest(before, (before.len() - start.len() + total) as nat) == without_oldest(
                    before.remove(oldest_index(before)),
                    (before.len() - start.len() + total - 1) as nat,
                ));
            }
        }
        proof {
            assert(without_oldest(kept@, 0) == kept@);
        }
        self.audit_store = kept;
    }

    /// Copies of the entries that match the query, in trail order.
    pub fn query_audit(&self, query: AuditQuery) -> (r: Vec<AuditEntry>)
        ensures
            r@.len() == matching_entries(self.entries(), query).len(),
            forall|i: int| 0 <= i < r@.len() ==> entry_copy(matching_entries(self.entries(), query)[i], #[trigger] r@[i]),
            forall|i: int|
                0 <= i < r@.len() && query.event_types@.len() > 0 ==> query.event_types@.contains(#[trigger] r@[i].event_type),
    {
        let mut out: Vec<AuditEntry> = Vec::new();
        let mut i: usize = 0;
        while i < self.audit_store.len()
            invariant
                i <= self.audit_store.len(),
                out@.len() == matching_entries(self.audit_store@.subrange(0, i as int), query).len(),
                forall|j: int| 0 <= j < out@.len() ==> entry_copy(
                    matching_entries(self.audit_store@.subrange(0, i as int), query)[j],
                    #[trigger] out@[j],
                ),
            decreases self.audit_store.len() - i,
        {
            proof {
                let t = self.audit_store@.subrange(0, i + 1);
                assert(t.drop_last() =~= self.audit_store@.subrange(0, i as int));
            }
            if matches_query(&self.audit_store[i], &query) {
                let c = self.audit_store[i].clone();
                out.push(c);
            }
            i = i + 1;
        }
        assert(self.audit_store@.subrange(0, self.audit_store@.len() as int) =~= self.audit_store@);
        assert forall|i: int| 0 <= i < out@.len() && query.event_types@.len() > 0 implies query.event_types@.contains(
            #[trigger] out@[i].event_type,
        ) by {
            lemma_query_results_respect_filters(self.entries(), query, i);
        }
        out
    }

    /// Alerts that are active or under investigation, in the order raised.
    pub fn get_active_alerts(&self) -> (r: Vec<&SecurityAlert>)
        ensures
            r@.map_values(|x: &SecurityAlert| *x) == active_alerts(self.alert_list()),
    {
        let mut out: Vec<&SecurityAlert> = Vec::new();
        let mut i: usize = 0;
        while i < self.alerts.len()
            invariant
                i <= self.alerts.len(),
                out@.map_values(|x: &SecurityAlert| *x) == active_alerts(self.alerts@.subrange(0, i as int)),
            decreases self.alerts.len() - i,
        {
            proof {
                let t = self.alerts@.subrange(0, i + 1);
                assert(t.drop_last() =~= self.alerts@.subrange(0, i as int));
            }
            let a = &self.alerts[i];
            let ghost before = out@;
            if a.status == AlertStatus::Active || a.status == AlertStatus::Investigating {
                out.push(a);
                assert(out@.map_values(|x: &SecurityAlert| *x) =~= before.map_values(|x: &SecurityAlert| *x).push(*a));
            }
            i = i + 1;
        }
        assert(self.alerts@.subrange(0, self.alerts@.len() as int) =~= self.alerts@);
        out
    }

    /// Sets the status of the first alert with the identifier; fails when
    /// there is none.
    pub fn update_alert_status(&mut self, alert_id: &str, new_status: AlertStatus) -> (r: Result<(), AuditError>)
        ensures
            r is Ok <==> exists|k: int| 0 <= k < old(self).alert_list().len() && #[trigger] old(self).alert_list()[k].alert_id@ == alert_id@,
            r is Err ==> r == Err::<(), AuditError>(AuditError::AlertNotFound) && final(self).alert_list() == old(self).alert_list(),
            r is Ok ==> exists|k: int| {
                &&& 0 <= k < old(self).alert_list().len()
                &&& old(self).alert_list()[k].alert_id@ == alert_id@
                &&& forall|j: int| 0 <= j < k ==> #[trigger] old(self).alert_list()[j].alert_id@ != alert_id@
                &&& final(self).alert_list() == old(self).alert_list().update(
                    k,
                    SecurityAlert { status: new_status, ..old(self).alert_list()[k] },
                )
            },
            final(self).entries() == old(self).entries(),
            final(self).limit() == old(self).limit(),
            final(self).policy() == old(self).policy(),
            final(self).rules() == old(self).rules(),
            final(self).generator() == old(self).generator(),
    {
        let wanted = alert_id.to_owned();
        let mut i: usize = 0;
        while i < self.alerts.len()
            invariant
                i <= self.alerts.len(),
                wanted@ == alert_id@,
                self.alerts@ == old(self).alerts@,
                self.audit_store@ == old(self).audit_store@,
                self.max_entries == old(self).max_entries,
                self.retention_policy == old(self).retention_policy,
                self.compliance_engine == old(self).compliance_engine,
                self.report_generator == old(self).report_generator,
                forall|j: int| 0 <= j < i ==> #[trigger] self.alerts@[j].alert_id@ != alert_id@,
            decreases self.alerts.len() - i,
        {
            if self.alerts[i].alert_id == wanted {
                let mut a = self.alerts.remove(i);
                a.status = new_status;
                self.alerts.insert(i, a);
                assert(self.alerts@ =~= old(self).alerts@.update(
                    i as int,
                    SecurityAlert { status: new_status, ..old(self).alerts@[i as int] },
                ));
                return Ok(());
            }
            i = i + 1;
        }
        Err(AuditError::AlertNotFound)
    }

    /// Generates a report over the trail.
    pub fn generate_report(&mut self, request: &ReportRequest, now_ms: u64) -> (r: Result<String, AuditError>)
        ensures
            final(self).entries() == old(self).entries(),
            final(self).alert_list() == old(self).alert_list(),
            final(self).generator().templates() == old(self).generator().templates(),
            report_generation(
                old(self).generator().templates(),
                old(self).generator().reports(),
                final(self).generator().reports(),
                *request,
                now_ms,
                r,
            ),
    {
        self.report_generator.generate_report(request, now_ms)
    }

    /// Adds a report template.
    pub fn add_report_template(&mut self, template: ReportTemplate)
        ensures
            final(self).entries() == old(self).entries(),
            final(self).alert_list() == old(self).alert_list(),
            final(self).generator().reports() == old(self).generator().reports(),
            has_template(old(self).generator().templates(), template.template_id@) ==> exists|k: int|
                is_first_template(old(self).generator().templates(), template.template_id@, k)
                    && final(self).generator().templates() == old(self).generator().templates().update(k, template),
            !has_template(old(self).generator().templates(), template.template_id@) ==> final(self).generator().templates()
                == old(self).generator().templates().push(template),
            unique_template_ids(old(self).generator().templates()) ==> unique_template_ids(final(self).generator().templates()),
    {
        self.report_generator.add_template(template);
    }
}

/// The name a severity is printed with.
pub open spec fn severity_name(s: AuditSeverity) -> Seq<char> {
    match s {
        AuditSeverity::Informational => "Informational"@,
        AuditSeverity::Low => "Low"@,
        AuditSeverity::Medium => "Medium"@,
        AuditSeverity::High => "High"@,
        AuditSeverity::Critical => "Critical"@,
    }
}

/// How a report names an actor: operators, drones and stations by kind and
/// identifier, anything else as the system.
pub open spec fn actor_label(a: AuditActor) -> Seq<char> {
    match a {
        AuditActor::HumanOperator { operator_id, .. } => "operator:"@ + operator_id@,
        AuditActor::Drone { drone_id, .. } => "drone:"@ + drone_id@,
        AuditActor::Station { station_id, .. } => "station:"@ + station_id@,
        _ => "system"@,
    }
}

pub open spec fn bool_text(b: bool) -> Seq<char> {
    if b { "true"@ } else { "false"@ }
}

/// One CSV line of an entry: seconds since the epoch, event type, severity,
/// actor and whether the operation succeeded.
pub open spec fn csv_line(e: AuditEntry) -> Seq<char> {
    decimal_chars((e.timestamp_ms / 1000) as nat) + ","@ + event_type_name(e.event_type) + ","@ + severity_name(e.severity)
        + ","@ + actor_label(e.actor) + ","@ + bool_text(e.success) + "\n"@
}

/// The CSV lines of entries, in order.
pub open spec fn csv_lines(entries: Seq<AuditEntry>) -> Seq<char>
    decreases entries.len(),
{
    if entries.len() == 0 {
        Seq::empty()
    } else {
        csv_lines(entries.drop_last()) + csv_line(entries.last())
    }
}

pub open spec fn csv_header() -> Seq<char> {
    "timestamp,event_type,severity,actor,result\n"@
}

fn append_severity(s: &mut String, sev: AuditSeverity)
    ensures
        final(s)@ == old(s)@ + severity_name(sev),
{
    match sev {
        AuditSeverity::Informational => s.append("Informational"),
        AuditSeverity::Low => s.append("Low"),
        AuditSeverity::Medium => s.append("Medium"),
        AuditSeverity::High => s.append("High"),
        AuditSeverity::Critical => s.append("Critical"),
    }
}

fn append_actor(s: &mut String, a: &AuditActor)
    ensures
        final(s)@ == old(s)@ + actor_label(*a),
{
    match a {
        AuditActor::HumanOperator { operator_id, .. } => {
            s.append("operator:");
            s.append(operator_id.as_str());
        },
        AuditActor::Drone { drone_id, .. } => {
            s.append("drone:");
            s.append(drone_id.as_str());
        },
        AuditActor::Station { station_id, .. } => {
            s.append("station:");
            s.append(station_id.as_str());
        },
        _ => s.append("system"),
    }
}

fn append_csv_line(csv: &mut String, e: &AuditEntry)
    ensures
        final(csv)@ == old(csv)@ + csv_line(*e),
{
    let ghost start = csv@;
    append_decimal(csv, e.timestamp_ms / 1000);
    csv.append(",");
    let name = e.event_type.name();
    csv.append(name.as_str());
    csv.append(",");
    append_severity(csv, e.severity);
    csv.append(",");
    append_actor(csv, &e.actor);
    csv.append(",");
    if e.success {
        csv.append("true");
    } else {
        csv.append("false");
    }
    csv.append("\n");
    proof {
        assert(csv@ =~= start + csv_line(*e));
    }
}

impl AuditReportGenerator {
    /// A CSV report of entries: a header line, then one line per entry.
    pub fn generate_csv_report(&self, entries: &Vec<AuditEntry>) -> (r: Result<String, AuditError>)
        ensures
            r is Ok,
            r->Ok_0@ == csv_header() + csv_lines(entries@),
    {
        let mut csv = String::new();
        csv.append("timestamp,event_type,severity,actor,result\n");
        let mut i: usize = 0;
        while i < entries.len()
            invariant
                i <= entries@.len(),
                csv@ == csv_header() + csv_lines(entries@.take(i as int)),
            decreases entries@.len() - i,
        {
            let ghost before = csv@;
            append_csv_line(&mut csv, &entries[i]);
            proof {
                assert(entries@.take(i + 1).drop_last() =~= entries@.take(i as int));
                assert(entries@.take(i + 1).last() == entries@[i as int]);
                assert(csv@ =~= before + csv_line(entries@[i as int]));
            }
            i = i + 1;
        }
        assert(entries@.take(entries@.len() as int) =~= entries@);
        Ok(csv)
    }
}

} // verus!
