use goldenstorm::logging::{
    error, info, log_file_base, needs_rotation, rotation_renames, warn, LogTarget,
    MAX_LOG_SIZE_BYTES,
};

#[test]
fn log_names() {
    assert_eq!(log_file_base(LogTarget::Ui), "goldenstorm_ui.log");
    assert_eq!(log_file_base(LogTarget::Agent), "goldenstorm_agent.log");
}

#[test]
fn records_and_lines() {
    let r = info(LogTarget::Agent, "GoldenStormAgent.exe launched.");
    assert_eq!(r.level, "INFO");
    assert_eq!(r.target, LogTarget::Agent);
    assert_eq!(r.line("2025-01-02 03:04:05"), "[2025-01-02 03:04:05] [INFO] GoldenStormAgent.exe launched.");
    assert_eq!(warn(LogTarget::Ui, "w").level, "WARN");
    assert_eq!(error(LogTarget::Ui, "e").line("t"), "[t] [ERROR] e");
}

#[test]
fn rotation_threshold() {
    assert_eq!(MAX_LOG_SIZE_BYTES, 2097152);
    assert!(!needs_rotation(false, 10_000_000));
    assert!(!needs_rotation(true, 2097151));
    assert!(needs_rotation(true, 2097152));
}

#[test]
fn rotation_shifts_oldest_first() {
    let r = rotation_renames("goldenstorm_ui.log");
    let expect = [
        ("goldenstorm_ui.log.4", "goldenstorm_ui.log.5"),
        ("goldenstorm_ui.log.3", "goldenstorm_ui.log.4"),
        ("goldenstorm_ui.log.2", "goldenstorm_ui.log.3"),
        ("goldenstorm_ui.log.1", "goldenstorm_ui.log.2"),
        ("goldenstorm_ui.log", "goldenstorm_ui.log.1"),
    ];
    assert_eq!(r.len(), 5);
    for (k, (a, b)) in expect.iter().enumerate() {
        assert_eq!(r[k].0, *a);
        assert_eq!(r[k].1, *b);
    }
}
