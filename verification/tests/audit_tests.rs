use rgibberlink_core::audit::EvidenceArtifact;
use rgibberlink_core::audit::{
    append_decimal, apply_filters, create_audit_entry, evaluate_filter, select_report_entries, ActorFilter,
    AlertStatus, AuditActor, AuditError, AuditEventType, AuditQuery, AuditReportGenerator, AuditSeverity,
    AuditSystem, ComplianceEngine, ComplianceFlag, ReportFilter, ReportFormat, ReportRequest, ReportTemplate,
};

fn system_actor(component: &str) -> AuditActor {
    AuditActor::System { component: component.to_string(), version: "1.0".to_string(), subsystem: "test".to_string() }
}

fn operator(id: &str) -> AuditActor {
    AuditActor::HumanOperator {
        operator_id: id.to_string(),
        clearance_level: "standard".to_string(),
        department: Some("operations".to_string()),
    }
}

fn empty_query() -> AuditQuery {
    AuditQuery {
        start_time_ms: None,
        end_time_ms: None,
        event_types: vec![],
        min_severity: None,
        actor_filter: None,
        compliance_flags: vec![],
        limit: None,
    }
}

fn template(id: &str, format: ReportFormat) -> ReportTemplate {
    ReportTemplate {
        template_id: id.to_string(),
        name: "Test Report".to_string(),
        description: "Test audit report".to_string(),
        sections: vec![],
        filters: vec![],
        format,
    }
}

#[test]
fn test_audit_system_creation() {
    let audit_system = AuditSystem::new(1000);
    assert_eq!(audit_system.entry_count(), 0);
    assert_eq!(audit_system.max_entries(), 1000);
}

#[test]
fn test_audit_entry_recording() {
    let mut audit_system = AuditSystem::new(1000);
    let entry = create_audit_entry(
        AuditEventType::MissionTransfer,
        AuditSeverity::High,
        system_actor("test_component"),
        "mission_transfer".to_string(),
        true,
        1_000,
    );
    let result = audit_system.record_event(entry, 2_000);
    assert!(result.is_ok());
    assert_eq!(result.unwrap(), "audit_2000");
    assert_eq!(audit_system.entry_count(), 1);
}

#[test]
fn test_audit_query() {
    let mut audit_system = AuditSystem::new(1000);
    let entry = create_audit_entry(
        AuditEventType::SecurityAuthentication,
        AuditSeverity::Medium,
        operator("test_operator"),
        "pin_auth".to_string(),
        true,
        1_000,
    );
    audit_system.record_event(entry, 1_000).unwrap();

    let query = AuditQuery { event_types: vec![AuditEventType::SecurityAuthentication], ..empty_query() };
    let results = audit_system.query_audit(query);
    assert_eq!(results.len(), 1);
    assert_eq!(results[0].event_type, AuditEventType::SecurityAuthentication);
}

#[test]
fn test_compliance_engine() {
    let compliance_engine = ComplianceEngine::new();
    assert_eq!(compliance_engine.rule_count(), 1);
    assert!(compliance_engine.regulatory_framework_count() > 0);
}

#[test]
fn test_report_generator() {
    let mut report_generator = AuditReportGenerator::new();
    report_generator.add_template(template("test_template", ReportFormat::JSON));
    let request = ReportRequest { template_id: "test_template".to_string(), time_range_ms: None, filters: vec![] };
    let result = report_generator.generate_report(&request, 5_000);
    assert_eq!(result.unwrap(), "report_5000");
    assert_eq!(report_generator.report_count(), 1);
}

#[test]
fn test_report_errors() {
    let mut generator = AuditReportGenerator::new();
    let request = ReportRequest { template_id: "missing".to_string(), time_range_ms: None, filters: vec![] };
    assert_eq!(
        generator.generate_report(&request, 1),
        Err(AuditError::ReportGenerationError("Template not found".to_string()))
    );
    generator.add_template(template("pdf", ReportFormat::PDF));
    let pdf = ReportRequest { template_id: "pdf".to_string(), time_range_ms: None, filters: vec![] };
    assert_eq!(
        generator.generate_report(&pdf, 1),
        Err(AuditError::ReportGenerationError("Unsupported format".to_string()))
    );
    generator.add_template(template("pdf", ReportFormat::CSV));
    assert!(generator.generate_report(&pdf, 1).is_ok());
    assert_eq!(generator.report_count(), 1);
}

#[test]
fn test_audit_alerts() {
    let mut audit_system = AuditSystem::new(1000);
    assert_eq!(audit_system.get_active_alerts().len(), 0);
    let entry = create_audit_entry(
        AuditEventType::EmergencyAction,
        AuditSeverity::Critical,
        system_actor("emergency_system"),
        "emergency_shutdown".to_string(),
        true,
        10,
    );
    let id = audit_system.record_event(entry, 77).unwrap();
    let active_alerts = audit_system.get_active_alerts();
    assert_eq!(active_alerts.len(), 1);
    assert_eq!(active_alerts[0].alert_id, "alert_77");
    assert_eq!(active_alerts[0].description, format!("Audit entry {} requires review by security_team", id));
}

#[test]
fn test_non_critical_entry_raises_no_alert() {
    let mut audit_system = AuditSystem::new(1000);
    let entry = create_audit_entry(AuditEventType::EmergencyAction, AuditSeverity::High, system_actor("x"), "op".to_string(), true, 10);
    audit_system.record_event(entry, 10).unwrap();
    let other = create_audit_entry(AuditEventType::DroneCommand, AuditSeverity::Critical, system_actor("x"), "op".to_string(), true, 10);
    audit_system.record_event(other, 10).unwrap();
    assert!(audit_system.get_active_alerts().is_empty());
}

#[test]
fn test_alert_status_update() {
    let mut audit_system = AuditSystem::new(1000);
    let entry = create_audit_entry(AuditEventType::MissionTransfer, AuditSeverity::Critical, system_actor("x"), "op".to_string(), true, 10);
    audit_system.record_event(entry, 99).unwrap();
    assert_eq!(audit_system.update_alert_status("nope", AlertStatus::Resolved), Err(AuditError::AlertNotFound));
    assert!(audit_system.update_alert_status("alert_99", AlertStatus::Investigating).is_ok());
    assert_eq!(audit_system.get_active_alerts().len(), 1);
    assert!(audit_system.update_alert_status("alert_99", AlertStatus::Resolved).is_ok());
    assert!(audit_system.get_active_alerts().is_empty());
}

#[test]
fn test_entry_keeps_given_id_and_time() {
    let mut audit_system = AuditSystem::new(10);
    let mut entry = create_audit_entry(AuditEventType::DroneCommand, AuditSeverity::Low, system_actor("x"), "op".to_string(), true, 0);
    entry.entry_id = "given".to_string();
    assert_eq!(audit_system.record_event(entry, 500).unwrap(), "given");
    let found = audit_system.query_audit(empty_query());
    assert_eq!(found[0].timestamp_ms, 500);
    assert_eq!(found[0].entry_id, "given");
}

#[test]
fn test_query_filters() {
    let mut audit_system = AuditSystem::new(100);
    let mut flagged = create_audit_entry(AuditEventType::PolicyViolation, AuditSeverity::High, operator("alice"), "op".to_string(), false, 100);
    flagged.compliance_flags.push(ComplianceFlag::Warning { message: "late".to_string() });
    audit_system.record_event(flagged, 100).unwrap();
    audit_system
        .record_event(create_audit_entry(AuditEventType::DroneCommand, AuditSeverity::Low, operator("bob"), "op".to_string(), true, 200), 200)
        .unwrap();

    let by_actor = AuditQuery { actor_filter: Some(ActorFilter::OperatorId("bob".to_string())), ..empty_query() };
    assert_eq!(audit_system.query_audit(by_actor).len(), 1);
    let by_severity = AuditQuery { min_severity: Some(AuditSeverity::Medium), ..empty_query() };
    assert_eq!(audit_system.query_audit(by_severity)[0].event_type, AuditEventType::PolicyViolation);
    let by_time = AuditQuery { start_time_ms: Some(150), end_time_ms: Some(250), ..empty_query() };
    assert_eq!(audit_system.query_audit(by_time)[0].event_type, AuditEventType::DroneCommand);
    let by_flag = AuditQuery { compliance_flags: vec![ComplianceFlag::Warning { message: "late".to_string() }], ..empty_query() };
    assert_eq!(audit_system.query_audit(by_flag).len(), 1);
    let wrong_flag = AuditQuery { compliance_flags: vec![ComplianceFlag::Compliant], ..empty_query() };
    assert!(audit_system.query_audit(wrong_flag).is_empty());
}

#[test]
fn test_retention_drops_oldest_beyond_limit() {
    let day = 86_400_000u64;
    let now = 1000 * day;
    let mut audit_system = AuditSystem::new(2);
    for t in [now - 3, now - 2, now - 1] {
        let e = create_audit_entry(AuditEventType::DroneCommand, AuditSeverity::Low, system_actor("x"), "op".to_string(), true, t);
        audit_system.record_event(e, now).unwrap();
    }
    let left = audit_system.query_audit(empty_query());
    assert_eq!(left.len(), 2);
    assert_eq!(left[0].timestamp_ms, now - 2);
    assert_eq!(left[1].timestamp_ms, now - 1);
}

#[test]
fn test_retention_keeps_prioritized_old_entries() {
    let day = 86_400_000u64;
    let now = 1000 * day;
    let mut audit_system = AuditSystem::new(1);
    let old_critical = create_audit_entry(AuditEventType::MissionTransfer, AuditSeverity::Critical, system_actor("x"), "op".to_string(), true, day);
    audit_system.record_event(old_critical, now).unwrap();
    let old_low = create_audit_entry(AuditEventType::MissionTransfer, AuditSeverity::Low, system_actor("x"), "op".to_string(), true, day);
    audit_system.record_event(old_low, now).unwrap();
    let left = audit_system.query_audit(empty_query());
    assert_eq!(left.len(), 1);
    assert_eq!(left[0].severity, AuditSeverity::Critical);
}

#[test]
fn test_report_filters() {
    let e = create_audit_entry(AuditEventType::DroneCommand, AuditSeverity::High, system_actor("x"), "op".to_string(), true, 50);
    let gte = |v: &str| ReportFilter {
        field: "severity".to_string(),
        operator: "gte".to_string(),
        value: Some(v.to_string()),
        description: String::new(),
    };
    assert!(evaluate_filter(&e, &gte("Medium")));
    assert!(!evaluate_filter(&e, &gte("Critical")));
    assert!(!evaluate_filter(&e, &gte("Unknown")));
    let kind = ReportFilter {
        field: "event_type".to_string(),
        operator: "eq".to_string(),
        value: Some("DroneCommand".to_string()),
        description: String::new(),
    };
    assert!(evaluate_filter(&e, &kind));
    assert!(apply_filters(&e, &vec![gte("High"), kind.clone()]));
    let other = ReportFilter { field: "actor".to_string(), ..kind };
    assert!(evaluate_filter(&e, &other));
    let entries = vec![e];
    let request = ReportRequest { template_id: "t".to_string(), time_range_ms: Some((0, 40)), filters: vec![] };
    assert!(select_report_entries(&request, &entries).is_empty());
}

#[test]
fn test_decimal_text() {
    let mut s = String::from("n=");
    append_decimal(&mut s, 1234567890);
    assert_eq!(s, "n=1234567890");
}

#[test]
fn test_csv_report_lines() {
    let generator = AuditReportGenerator::new();
    let entries = vec![
        create_audit_entry(AuditEventType::MissionTransfer, AuditSeverity::High, operator("op7"), "transfer".to_string(), true, 12_345),
        create_audit_entry(AuditEventType::SystemHealthEvent, AuditSeverity::Low, system_actor("core"), "health".to_string(), false, 999),
    ];
    let csv = generator.generate_csv_report(&entries).unwrap();
    assert_eq!(
        csv,
        "timestamp,event_type,severity,actor,result\n12,MissionTransfer,High,operator:op7,true\n0,SystemHealthEvent,Low,system,false\n"
    );
    assert_eq!(generator.generate_csv_report(&vec![]).unwrap(), "timestamp,event_type,severity,actor,result\n");
}

#[test]
fn test_audit_system_reports() {
    let mut audit_system = AuditSystem::new(1000);
    let request = ReportRequest { template_id: "weekly".to_string(), time_range_ms: None, filters: vec![] };
    assert_eq!(
        audit_system.generate_report(&request, 7_000),
        Err(AuditError::ReportGenerationError("Template not found".to_string()))
    );
    audit_system.add_report_template(template("weekly", ReportFormat::PDF));
    assert_eq!(
        audit_system.generate_report(&request, 7_000),
        Err(AuditError::ReportGenerationError("Unsupported format".to_string()))
    );
    audit_system.add_report_template(template("weekly", ReportFormat::JSON));
    assert_eq!(audit_system.generate_report(&request, 7_000), Ok("report_7000".to_string()));
}

#[test]
fn test_compliance_alert_carries_evidence() {
    let mut audit_system = AuditSystem::new(1000);
    let mut entry = create_audit_entry(
        AuditEventType::EmergencyAction,
        AuditSeverity::Critical,
        system_actor("laser"),
        "shutdown".to_string(),
        true,
        10,
    );
    entry.evidence.push(EvidenceArtifact::LogEntry {
        source: "laser".to_string(),
        level: "error".to_string(),
        message: "beam blocked".to_string(),
    });
    audit_system.record_event(entry, 10).unwrap();
    let alerts = audit_system.get_active_alerts();
    assert_eq!(alerts.len(), 1);
    assert_eq!(alerts[0].evidence.len(), 1);
    assert!(matches!(
        &alerts[0].evidence[0],
        EvidenceArtifact::LogEntry { source, level, message }
            if source == "laser" && level == "error" && message == "beam blocked"
    ));
}
