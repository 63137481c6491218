use package_fast::audit::{AuditEvent, AuditEventType, AuditTrail};

#[test]
fn test_audit_event_creation() {
    let event = AuditEvent::new(AuditEventType::PackageInstall)
        .with_package_name("test-package".to_string())
        .with_package_version("1.0.0".to_string())
        .with_user("test-user".to_string())
        .with_detail("source".to_string(), "npm".to_string());

    assert_eq!(event.event_type, AuditEventType::PackageInstall);
    assert_eq!(event.package_name, Some("test-package".to_string()));
    assert_eq!(event.package_version, Some("1.0.0".to_string()));
    assert_eq!(event.user, Some("test-user".to_string()));
    assert_eq!(event.detail("source"), Some(&"npm".to_string()));
    assert!(event.success);
}

#[test]
fn test_audit_trail_add_event() {
    let mut audit_trail = AuditTrail::new();
    let event = AuditEvent::new(AuditEventType::PackageInstall);

    assert!(audit_trail.add_event(event).is_ok());
    assert_eq!(audit_trail.events().len(), 1);
}

#[test]
fn test_audit_trail_events_for_package() {
    let mut audit_trail = AuditTrail::new();

    let event1 = AuditEvent::new(AuditEventType::PackageInstall)
        .with_package_name("package-a".to_string());
    let event2 = AuditEvent::new(AuditEventType::PackageUninstall)
        .with_package_name("package-b".to_string());
    let event3 = AuditEvent::new(AuditEventType::PackageUpdate)
        .with_package_name("package-a".to_string());

    audit_trail.add_event(event1).unwrap();
    audit_trail.add_event(event2).unwrap();
    audit_trail.add_event(event3).unwrap();

    let package_a_events = audit_trail.events_for_package("package-a");
    assert_eq!(package_a_events.len(), 2);
}

#[test]
fn test_audit_trail_export_json() {
    let mut audit_trail = AuditTrail::new();
    let event = AuditEvent::new(AuditEventType::PackageInstall)
        .with_package_name("test-package".to_string());

    audit_trail.add_event(event).unwrap();

    let json = audit_trail.export_to_json();
    assert!(serde_json::from_str::<serde_json::Value>(&json).is_ok());
}

#[test]
fn test_audit_trail_export_csv() {
    let mut audit_trail = AuditTrail::new();
    let event = AuditEvent::new(AuditEventType::PackageInstall)
        .with_package_name("test-package".to_string());

    audit_trail.add_event(event).unwrap();

    let csv = audit_trail.export_to_csv();
    assert!(!csv.is_empty());
}

#[test]
fn detail_for_an_existing_key_is_replaced() {
    let event = AuditEvent::new(AuditEventType::PackageInstall)
        .with_detail("source".to_string(), "npm".to_string())
        .with_detail("attempt".to_string(), "1".to_string())
        .with_detail("source".to_string(), "registry".to_string());
    assert_eq!(event.details.len(), 2);
    assert_eq!(event.detail("source"), Some(&"registry".to_string()));
    assert_eq!(event.detail("attempt"), Some(&"1".to_string()));
    assert_eq!(event.detail("absent"), None);
}

#[test]
fn event_ids_are_36_characters() {
    let event = AuditEvent::new(AuditEventType::ConfigurationChange);
    assert_eq!(event.id.len(), 36);
    let other = AuditEvent::new(AuditEventType::ConfigurationChange);
    assert_ne!(event.id, other.id);
}

#[test]
fn audit_ordering_is_insertion_order() {
    let mut trail = AuditTrail::new();
    let e1 = AuditEvent::new(AuditEventType::PackageInstall)
        .with_package_name("pkg".to_string())
        .with_detail("step".to_string(), "one".to_string());
    let e2 = AuditEvent::new(AuditEventType::IntegrityCheck)
        .with_package_name("other".to_string());
    let e3 = AuditEvent::new(AuditEventType::PackageUpdate)
        .with_package_name("pkg".to_string())
        .with_detail("step".to_string(), "three".to_string());
    let (id1, id2, id3) = (e1.id.clone(), e2.id.clone(), e3.id.clone());

    trail.add_event(e1).unwrap();
    trail.add_event(e2).unwrap();
    trail.add_event(e3).unwrap();

    let ids: Vec<&str> = trail.events().iter().map(|e| e.id.as_str()).collect();
    assert_eq!(ids, vec![id1.as_str(), id2.as_str(), id3.as_str()]);

    // The per-package view keeps the relative order of its matches.
    let pkg_events = trail.events_for_package("pkg");
    assert_eq!(pkg_events.len(), 2);
    assert_eq!(pkg_events[0].id, id1);
    assert_eq!(pkg_events[1].id, id3);
}

#[test]
fn json_export_round_trips_field_for_field() {
    let mut trail = AuditTrail::new();
    let e1 = AuditEvent::new(AuditEventType::IntegrityCheck)
        .with_package_name("left-pad".to_string())
        .with_package_version("1.3.0".to_string())
        .with_user("alice".to_string())
        .with_ip_address("203.0.113.7".to_string())
        .with_detail("source".to_string(), "npm".to_string())
        .with_error("digest mismatch".to_string());
    let e2 = AuditEvent::new(AuditEventType::VulnerabilityScan);
    let originals = vec![e1, e2];
    for e in &originals {
        trail.add_event(clone_for_test(e)).unwrap();
    }

    let json = trail.export_to_json();
    let parsed: serde_json::Value = serde_json::from_str(&json).unwrap();
    let records = parsed.as_array().unwrap();
    assert_eq!(records.len(), originals.len());

    for (record, original) in records.iter().zip(originals.iter()) {
        assert_eq!(record["id"].as_str().unwrap(), original.id);
        assert_eq!(record["timestamp"].as_i64().unwrap(), original.timestamp);
        assert_eq!(record["success"].as_bool().unwrap(), original.success);
        match &original.package_name {
            Some(name) => assert_eq!(record["package_name"].as_str().unwrap(), name),
            None => assert!(record["package_name"].is_null()),
        }
        match &original.error_message {
            Some(msg) => assert_eq!(record["error_message"].as_str().unwrap(), msg),
            None => assert!(record["error_message"].is_null()),
        }
        for (key, value) in &original.details {
            assert_eq!(record["details"][key].as_str().unwrap(), value);
        }
    }
    assert_eq!(records[0]["event_type"].as_str().unwrap(), "IntegrityCheck");
    assert_eq!(records[1]["event_type"].as_str().unwrap(), "VulnerabilityScan");
}

#[test]
fn json_escaping_survives_hostile_strings() {
    let mut trail = AuditTrail::new();
    let hostile = "quote \" backslash \\ newline \n tab \t end".to_string();
    let event = AuditEvent::new(AuditEventType::RuntimeProtection)
        .with_package_name(hostile.clone())
        .with_detail("payload".to_string(), hostile.clone());
    trail.add_event(event).unwrap();

    let json = trail.export_to_json();
    let parsed: serde_json::Value = serde_json::from_str(&json).unwrap();
    assert_eq!(parsed[0]["package_name"].as_str().unwrap(), hostile);
    assert_eq!(parsed[0]["details"]["payload"].as_str().unwrap(), hostile);

    let line = AuditTrail::event_json_line(trail.events().first().unwrap());
    assert!(!line.contains('\n'));
    let reparsed: serde_json::Value = serde_json::from_str(&line).unwrap();
    assert_eq!(reparsed["package_name"].as_str().unwrap(), hostile);
}

#[test]
fn csv_export_has_ten_columns_per_row() {
    let mut trail = AuditTrail::new();
    trail
        .add_event(
            AuditEvent::new(AuditEventType::PackageInstall)
                .with_package_name("pkg, with comma".to_string())
                .with_detail("k".to_string(), "v".to_string()),
        )
        .unwrap();
    trail.add_event(AuditEvent::new(AuditEventType::PackageUninstall)).unwrap();

    let rows = trail.export_csv_rows();
    assert_eq!(rows.len(), 3); // header plus one row per event
    for row in &rows {
        assert_eq!(row.len(), 10);
    }
    assert_eq!(rows[0][0], "ID");
    assert_eq!(rows[0][9], "Details");

    let text = trail.export_to_csv();
    let mut reader = csv::ReaderBuilder::new().has_headers(false).from_reader(text.as_bytes());
    let mut record_count = 0;
    for record in reader.records() {
        let record = record.unwrap();
        assert_eq!(record.len(), 10);
        record_count += 1;
    }
    assert_eq!(record_count, 3);
}

#[test]
fn csv_timestamps_are_rfc3339() {
    let mut trail = AuditTrail::new();
    let mut event = AuditEvent::new(AuditEventType::PackageInstall);
    event.timestamp = 0;
    trail.add_event(event).unwrap();
    let rows = trail.export_csv_rows();
    assert_eq!(rows[1][1], "1970-01-01T00:00:00+00:00");
}

#[test]
fn sink_lines_are_newline_delimited_json() {
    let trail = AuditTrail::with_output_file("audit.log".to_string());
    assert_eq!(trail.output_file(), &Some("audit.log".to_string()));
    let event = AuditEvent::new(AuditEventType::IntegrityCheck);
    let line = AuditTrail::event_json_line(&event);
    let parsed: serde_json::Value = serde_json::from_str(&line).unwrap();
    assert_eq!(parsed["id"].as_str().unwrap(), event.id);
}

fn clone_for_test(e: &AuditEvent) -> AuditEvent {
    package_fast::audit::clone_event(e)
}
