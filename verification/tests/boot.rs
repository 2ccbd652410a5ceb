use axhal::boot::{primary_entry, secondary_entry};

#[test]
fn primary_entry_completes_the_full_protocol() {
    let record = primary_entry(0, 0x4800_0000);
    assert_eq!(record.core_id, 0);
    assert_eq!(record.boot_info, 0x4800_0000);
    assert!(record.is_primary);
    assert!(record.bss_cleared);
    assert!(record.trap_vector_initialized);
    assert!(record.percpu_initialized);
    assert!(record.early_console_initialized);
    assert!(record.early_timer_initialized);
}

#[test]
fn secondary_entry_never_clears_memory() {
    let record = secondary_entry(2);
    assert_eq!(record.core_id, 2);
    assert!(!record.is_primary);
    assert!(!record.bss_cleared);
    assert!(record.trap_vector_initialized);
    assert!(record.percpu_initialized);
    assert!(!record.early_console_initialized);
    assert!(!record.early_timer_initialized);
}
