use deet::symbols::{Location, SymbolTable};

fn sample_table() -> SymbolTable {
    let mut table = SymbolTable::new();
    table.add_function(String::from("main"), 0x1000, 0x1100);
    table.add_function(String::from("helper"), 0x1100, 0x1180);
    table.add_line(String::from("prog.c"), 3, 0x1000);
    table.add_line(String::from("prog.c"), 4, 0x1010);
    table.add_line(String::from("prog.c"), 9, 0x1100);
    table
}

#[test]
fn function_names_resolve_by_range() {
    let table = sample_table();
    assert_eq!(table.function_name_at(0x1000), Some(String::from("main")));
    assert_eq!(table.function_name_at(0x10ff), Some(String::from("main")));
    assert_eq!(table.function_name_at(0x1100), Some(String::from("helper")));
    assert_eq!(table.function_name_at(0x0fff), None);
    assert_eq!(table.function_name_at(0x1180), None);
}

#[test]
fn first_covering_function_wins() {
    let mut table = SymbolTable::new();
    table.add_function(String::from("outer"), 0x100, 0x300);
    table.add_function(String::from("inner"), 0x200, 0x280);
    assert_eq!(table.function_name_at(0x240), Some(String::from("outer")));
}

#[test]
fn locations_resolve_to_nearest_row_not_past() {
    let table = sample_table();
    assert_eq!(
        table.source_location_at(0x1000),
        Some(Location { file: String::from("prog.c"), line: 3 })
    );
    assert_eq!(
        table.source_location_at(0x100f),
        Some(Location { file: String::from("prog.c"), line: 3 })
    );
    assert_eq!(
        table.source_location_at(0x1010),
        Some(Location { file: String::from("prog.c"), line: 4 })
    );
    assert_eq!(
        table.source_location_at(0x5000),
        Some(Location { file: String::from("prog.c"), line: 9 })
    );
    assert_eq!(table.source_location_at(0x0fff), None);
}

#[test]
fn lines_resolve_back_to_addresses() {
    let table = sample_table();
    assert_eq!(table.address_of_line("prog.c", 4), Some(0x1010));
    assert_eq!(table.address_of_line("prog.c", 5), None);
    assert_eq!(table.address_of_line("other.c", 4), None);
}

#[test]
fn function_names_resolve_back_to_entry_addresses() {
    let table = sample_table();
    assert_eq!(table.address_of_function("main"), Some(0x1000));
    assert_eq!(table.address_of_function("helper"), Some(0x1100));
    assert_eq!(table.address_of_function("absent"), None);
}
