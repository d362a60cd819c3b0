use deet::breakpoint::BreakpointTable;

#[test]
fn ids_follow_insertion_order() {
    let mut table = BreakpointTable::new();
    assert_eq!(table.len(), 0);
    assert_eq!(table.set(0x1000), 0);
    assert_eq!(table.set(0x2000), 1);
    assert_eq!(table.set(0x3000), 2);
    assert_eq!(table.len(), 3);
    assert_eq!(table.address_at(0), 0x1000);
    assert_eq!(table.address_at(1), 0x2000);
    assert_eq!(table.address_at(2), 0x3000);
}

#[test]
fn resetting_an_address_makes_no_second_record() {
    let mut table = BreakpointTable::new();
    assert_eq!(table.set(0x1000), 0);
    assert_eq!(table.set(0x2000), 1);
    // Setting an existing address again returns its original number and
    // leaves the table unchanged.
    assert_eq!(table.set(0x1000), 0);
    assert_eq!(table.set(0x2000), 1);
    assert_eq!(table.len(), 2);
}

#[test]
fn original_byte_is_recorded_once_installed() {
    let mut table = BreakpointTable::new();
    table.set(0x1000);
    table.set(0x2000);
    assert_eq!(table.installed_byte_for(0x1000), None);
    assert_eq!(table.installed_byte_for(0x9999), None);
    table.record_original(0x1000, 0x55);
    assert_eq!(table.installed_byte_for(0x1000), Some(0x55));
    assert_eq!(table.installed_byte_for(0x2000), None);
    // Re-setting the installed address keeps the recorded byte.
    assert_eq!(table.set(0x1000), 0);
    assert_eq!(table.installed_byte_for(0x1000), Some(0x55));
}
