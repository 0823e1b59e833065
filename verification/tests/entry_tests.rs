use farm_entry::entry::FarmEntry;
use farm_entry::entry::FarmEntryEvent;
use farm_entry::entry::FarmEntryInit;
use farm_entry::entry::StableId;

fn id(raw: u64) -> StableId {
    StableId { raw }
}

#[test]
fn initialize_always_emits_validity_update() {
    let (entry, event) = FarmEntry::initialize(
        id(0),
        String::from("/tmp/farm"),
        String::from("2 GB"),
        true,
    );
    assert_eq!(event, FarmEntryEvent::ValidityUpdate);
    assert!(entry.is_valid());

    let (entry, event) = FarmEntry::initialize(
        id(1),
        String::from("/nowhere"),
        String::from("abc"),
        false,
    );
    assert_eq!(event, FarmEntryEvent::ValidityUpdate);
    assert!(!entry.is_valid());
}

#[test]
fn initialize_sets_all_change_flags() {
    let (entry, _) = FarmEntry::initialize(id(0), String::from("/a"), String::from("1"), false);
    assert!(entry.path.value_changed && entry.path.validity_changed);
    assert!(entry.size.value_changed && entry.size.validity_changed);
}

#[test]
fn is_valid_needs_both_fields() {
    let (e, _) = FarmEntry::initialize(id(0), String::from("/a"), String::from("2 GB"), false);
    assert!(!e.is_valid());
    let (e, _) = FarmEntry::initialize(id(0), String::from("/a"), String::from("1 GB"), true);
    assert!(!e.is_valid());
    let (e, _) = FarmEntry::initialize(id(0), String::from("/a"), String::from("2 GB"), true);
    assert!(e.is_valid());
}

#[test]
fn is_valid_is_idempotent() {
    let (entry, _) = FarmEntry::initialize(id(3), String::from("/a"), String::from("2 GB"), true);
    let first = entry.is_valid();
    let second = entry.is_valid();
    let third = entry.is_valid();
    assert_eq!(first, second);
    assert_eq!(second, third);
}

#[test]
fn path_flip_emits_exactly_one_update() {
    // Start with path invalid, size valid: aggregate invalid.
    let (mut entry, _) =
        FarmEntry::initialize(id(4), String::from("/gone"), String::from("2 GB"), false);
    assert!(!entry.is_valid());

    // A writable directory flips aggregate validity: one event.
    let event = entry.handle_path_selected(String::from("/data/farm"), true);
    assert_eq!(event, Some(FarmEntryEvent::ValidityUpdate));
    assert!(entry.is_valid());

    // Another writable directory: no flip, no event.
    let event = entry.handle_path_selected(String::from("/data/other"), true);
    assert_eq!(event, None);
    assert!(entry.is_valid());
}

#[test]
fn path_selected_resets_size_flags_and_rebuilds_path() {
    let (mut entry, _) =
        FarmEntry::initialize(id(5), String::from("/old"), String::from("2 GB"), true);
    let _ = entry.handle_path_selected(String::from("/new"), false);
    assert_eq!(entry.path.value, "/new");
    assert!(!entry.path.is_valid);
    assert!(entry.path.value_changed && entry.path.validity_changed);
    assert!(!entry.size.value_changed && !entry.size.validity_changed);
    assert!(entry.size.is_valid);
}

#[test]
fn size_change_without_flip_emits_nothing() {
    let (mut entry, _) =
        FarmEntry::initialize(id(6), String::from("/a"), String::from("2 GB"), true);
    let event = entry.handle_size_text_changed(String::from("5 GB"));
    assert_eq!(event, None);
    assert!(entry.is_valid());
    assert!(entry.size.value_changed && entry.size.validity_changed);
    assert!(!entry.path.value_changed && !entry.path.validity_changed);
}

#[test]
fn invalid_size_text_is_kept_verbatim() {
    let (mut entry, _) =
        FarmEntry::initialize(id(7), String::from("/a"), String::from("2 GB"), true);
    let _ = entry.handle_size_text_changed(String::from("10"));
    assert_eq!(entry.size.value, "10");
    assert!(!entry.size.is_valid);
    let farm = entry.to_domain_value();
    assert_eq!(farm.size, "10");
    assert_eq!(farm.path, "/a");
}

#[test]
fn to_domain_value_snapshots_current_fields() {
    let (entry, _) =
        FarmEntry::initialize(id(8), String::from("/plot"), String::from("3 GB"), false);
    let farm = entry.to_domain_value();
    assert_eq!(farm.path, "/plot");
    assert_eq!(farm.size, "3 GB");
}

#[test]
fn picker_and_delete_requests_carry_identity() {
    let (entry, _) = FarmEntry::initialize(id(9), String::from("/a"), String::from("1"), true);
    assert_eq!(
        entry.request_open_directory_picker(),
        FarmEntryEvent::OpenDirectory(StableId { raw: 9 })
    );
    assert_eq!(entry.request_delete(), FarmEntryEvent::Delete(StableId { raw: 9 }));
}

#[test]
fn empty_init_pair_is_rejected_by_validation() {
    let init = FarmEntryInit::empty();
    assert_eq!(init.path, "");
    assert_eq!(init.size, "");
    // An entry built from the empty pair is invalid, never a validated absence.
    let (entry, _) = FarmEntry::initialize(id(11), init.path, init.size, false);
    assert!(!entry.is_valid());
}

#[test]
fn end_to_end_scenario() {
    // Initialize with a writable path and "2 GB": aggregate valid, one
    // unconditional ValidityUpdate from construction.
    let (mut entry, event) =
        FarmEntry::initialize(id(10), String::from("/tmp"), String::from("2 GB"), true);
    assert_eq!(event, FarmEntryEvent::ValidityUpdate);
    assert!(entry.is_valid());

    // "1 GB" is below the minimum: aggregate flips to false, one event.
    let event = entry.handle_size_text_changed(String::from("1 GB"));
    assert_eq!(event, Some(FarmEntryEvent::ValidityUpdate));
    assert!(!entry.is_valid());

    // "3 GB" is valid again: aggregate flips back to true, one event.
    let event = entry.handle_size_text_changed(String::from("3 GB"));
    assert_eq!(event, Some(FarmEntryEvent::ValidityUpdate));
    assert!(entry.is_valid());
}
