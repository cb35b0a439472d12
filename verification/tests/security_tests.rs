use rgibberlink_core::security::{
    CommandExecution, PermissionScope, PermissionType, SecurityConfig, SecurityError, SecurityManager, TrustLevel,
};

fn command(id: &str) -> CommandExecution {
    CommandExecution {
        command_id: id.to_string(),
        command_type: "test".to_string(),
        parameters: vec![],
        timestamp_ms: 0,
        executed_by: "test_user".to_string(),
        risk_level_permille: 500,
        requires_approval: false,
        approved_by: None,
        revoked: false,
        tags: vec![],
    }
}

#[test]
fn test_security_manager_creation() {
    let manager = SecurityManager::new(SecurityConfig::default());
    let status = manager.get_security_status();
    assert!(!status.pin_configured);
    assert!(status.pin_change_required);
    assert!(!status.biometric_available);
}

#[test]
fn test_pin_management() {
    let mut manager = SecurityManager::new(SecurityConfig::default());
    assert!(manager.pin_change_required());
    assert!(manager.change_pin("", "1234", 0).is_ok());
    assert!(manager.validate_pin("1234", 1).is_ok());
    assert!(manager.validate_pin("wrong", 2).is_err());
}

#[test]
fn test_pin_lockout() {
    let mut manager = SecurityManager::new(SecurityConfig::default());
    manager.change_pin("", "1234", 0).unwrap();
    assert_eq!(manager.validate_pin("0000", 1), Err(SecurityError::InvalidPin));
    assert_eq!(manager.validate_pin("0000", 2), Err(SecurityError::InvalidPin));
    assert_eq!(manager.validate_pin("0000", 3), Err(SecurityError::AccountLocked));
    assert_eq!(manager.validate_pin("1234", 4), Err(SecurityError::AccountLocked));
    assert!(manager.validate_pin("1234", 300_004).is_ok());
}

#[test]
fn test_short_pin_refused() {
    let mut manager = SecurityManager::new(SecurityConfig::default());
    assert_eq!(manager.change_pin("", "12", 0), Err(SecurityError::InvalidPin));
}

#[test]
fn test_permission_system() {
    let mut manager = SecurityManager::new(SecurityConfig::default());
    assert!(manager.check_permission(PermissionType::Discussion, PermissionScope::Single, 0).is_ok());
    assert!(manager.check_permission(PermissionType::Command, PermissionScope::Single, 0).is_err());
    assert!(manager.grant_permission(PermissionType::Command, PermissionScope::Single, "test_user", 0).is_ok());
}

#[test]
fn test_peer_management() {
    let mut manager = SecurityManager::new(SecurityConfig::default());
    assert!(manager.register_peer("GL-AB12-CDEF", TrustLevel::Medium, 0).is_ok());
    let risk = manager.get_peer_risk("GL-AB12-CDEF").unwrap();
    assert!(risk <= 1000);
    assert_eq!(manager.get_peer_risk("GL-0000-0000"), Err(SecurityError::InvalidPeerIdentity));
    assert_eq!(manager.register_peer("bad", TrustLevel::Low, 0), Err(SecurityError::InvalidPeerIdentity));
}

#[test]
fn test_command_execution() {
    let mut manager = SecurityManager::new(SecurityConfig::default());
    assert!(manager.execute_command(command("test_cmd")).is_ok());
    assert_eq!(manager.get_security_status().command_history_size, 1);
    assert!(manager.revoke_command("test_cmd").is_ok());
}

#[test]
fn test_rate_limiting() {
    let config = SecurityConfig { max_operations_per_window: 2, rate_limit_window_secs: 1, ..SecurityConfig::default() };
    let mut manager = SecurityManager::new(config);
    assert!(manager.check_permission(PermissionType::Discussion, PermissionScope::Single, 0).is_ok());
    assert!(manager.check_permission(PermissionType::Discussion, PermissionScope::Single, 10).is_ok());
    assert_eq!(
        manager.check_permission(PermissionType::Discussion, PermissionScope::Single, 20),
        Err(SecurityError::RateLimitExceeded)
    );
    assert!(manager.check_permission(PermissionType::Discussion, PermissionScope::Single, 2000).is_ok());
}

#[test]
fn test_key_derivation_depends_on_input() {
    let manager = SecurityManager::new(SecurityConfig::default());
    let a = manager.hkdf_derive_key(b"seed", b"info").unwrap();
    let b = manager.hkdf_derive_key(b"seed", b"other").unwrap();
    assert_ne!(a, b);
    assert_ne!(a, [0u8; 32]);
    assert_eq!(a, manager.hkdf_derive_key(b"seed", b"info").unwrap());
}
