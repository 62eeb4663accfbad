use guarded_state::registry::{
    absent_if_not_found, get_path, get_reg_value, restore_path, restore_reg_value,
    snapshot_from_read, with_saved_path, with_saved_programs_display_version, write_to_restore,
    ReadFailure, StoreWrite,
};
use std::collections::BTreeMap;
use std::io;
use std::sync::Mutex;

const UNINSTALL: &str = "Software\\Uninstall\\Tool";

/// A store in memory, which can be made to refuse reads or writes.
struct Registry {
    values: BTreeMap<(String, String), String>,
    unreadable: bool,
    read_only: bool,
    log: Vec<String>,
}

impl Registry {
    fn empty() -> Registry {
        Registry { values: BTreeMap::new(), unreadable: false, read_only: false, log: Vec::new() }
    }

    fn holding(subkey: &str, name: &str, value: &str) -> Registry {
        let mut registry = Registry::empty();
        registry.put(subkey, name, value);
        registry
    }

    fn put(&mut self, subkey: &str, name: &str, value: &str) {
        self.values.insert((subkey.to_string(), name.to_string()), value.to_string());
    }

    fn remove(&mut self, subkey: &str, name: &str) {
        self.values.remove(&(subkey.to_string(), name.to_string()));
    }

    fn value(&self, subkey: &str, name: &str) -> Option<&str> {
        self.values.get(&(subkey.to_string(), name.to_string())).map(String::as_str)
    }
}

fn read(registry: &Registry, subkey: &str, name: &str) -> io::Result<String> {
    if registry.unreadable {
        return Err(io::Error::from(io::ErrorKind::PermissionDenied));
    }
    match registry.value(subkey, name) {
        Some(v) => Ok(v.to_string()),
        None => Err(io::Error::from(io::ErrorKind::NotFound)),
    }
}

fn write(
    registry: &mut Registry,
    subkey: &str,
    name: &str,
    action: StoreWrite<String>,
) -> io::Result<()> {
    if registry.read_only {
        return Err(io::Error::from(io::ErrorKind::PermissionDenied));
    }
    match action {
        StoreWrite::Put(v) => {
            registry.log.push(format!("put {subkey} {name} {v}"));
            registry.put(subkey, name, &v);
        }
        StoreWrite::Delete => {
            registry.log.push(format!("delete {subkey} {name}"));
            registry.remove(subkey, name);
        }
    }
    Ok(())
}

#[test]
fn read_value_becomes_the_snapshot() {
    let raw: io::Result<Vec<u8>> = Ok(vec![1, 2, 3]);
    assert_eq!(snapshot_from_read(raw).unwrap(), Some(vec![1, 2, 3]));
}

#[test]
fn missing_value_is_an_absent_snapshot() {
    let raw: io::Result<Vec<u8>> = Err(io::Error::from(io::ErrorKind::NotFound));
    assert_eq!(snapshot_from_read(raw).unwrap(), None);
}

#[test]
fn other_read_failures_stay_failures() {
    let raw: io::Result<Vec<u8>> = Err(io::Error::from(io::ErrorKind::PermissionDenied));
    match snapshot_from_read(raw) {
        Err(e) => assert_eq!(e.kind(), io::ErrorKind::PermissionDenied),
        Ok(_) => panic!("a denied read was taken for a snapshot"),
    }
}

#[test]
fn failure_message_is_kept() {
    let raw: io::Result<u32> = Err(io::Error::new(io::ErrorKind::Other, "store is gone"));
    let e = snapshot_from_read(raw).unwrap_err();
    assert_eq!(e.kind(), io::ErrorKind::Other);
    assert_eq!(format!("{e}"), "store is gone");
}

#[test]
fn not_found_sorts_to_absent() {
    let snapshot: Result<Option<u8>, &str> = absent_if_not_found(ReadFailure::NotFound, "e");
    assert_eq!(snapshot, Ok(None));
}

#[test]
fn other_failure_sorts_to_the_failure() {
    let snapshot: Result<Option<u8>, &str> = absent_if_not_found(ReadFailure::Other, "e");
    assert_eq!(snapshot, Err("e"));
}

#[test]
fn present_snapshot_is_put_back() {
    assert_eq!(write_to_restore(Some("C:\\old\\path")), StoreWrite::Put("C:\\old\\path"));
}

#[test]
fn absent_snapshot_is_deleted() {
    assert_eq!(write_to_restore(None::<String>), StoreWrite::Delete);
}

#[test]
fn empty_value_is_put_back_not_deleted() {
    assert_eq!(write_to_restore(Some(String::new())), StoreWrite::Put(String::new()));
}

#[test]
fn get_reg_value_reads_the_named_value() {
    let mut registry = Registry::holding("Key", "Name", "value");
    registry.put("Key", "Other", "wrong");
    registry.put("Elsewhere", "Name", "wrong");
    assert_eq!(get_reg_value(&registry, "Key", "Name", read).unwrap(), Some("value".to_string()));
    assert_eq!(get_reg_value(&registry, "Key", "Missing", read).unwrap(), None::<String>);
}

#[test]
fn get_reg_value_hands_on_a_denied_read() {
    let mut registry = Registry::holding("Key", "Name", "value");
    registry.unreadable = true;
    let e = get_reg_value(&registry, "Key", "Name", read).unwrap_err();
    assert_eq!(e.kind(), io::ErrorKind::PermissionDenied);
}

#[test]
fn restore_reg_value_sets_a_present_snapshot() {
    let mut registry = Registry::holding("Key", "Name", "changed");
    restore_reg_value(&mut registry, "Key", "Name", Some("saved".to_string()), write);
    assert_eq!(registry.value("Key", "Name"), Some("saved"));
    assert_eq!(registry.log, vec!["put Key Name saved".to_string()]);
}

#[test]
fn restore_reg_value_deletes_for_an_absent_snapshot() {
    let mut registry = Registry::holding("Key", "Name", "created");
    restore_reg_value(&mut registry, "Key", "Name", None, write);
    assert_eq!(registry.value("Key", "Name"), None);
    assert_eq!(registry.log, vec!["delete Key Name".to_string()]);
}

#[test]
fn restore_reg_value_drops_a_failed_write() {
    let mut registry = Registry::holding("Key", "Name", "changed");
    registry.read_only = true;
    restore_reg_value(&mut registry, "Key", "Name", Some("saved".to_string()), write);
    restore_reg_value(&mut registry, "Key", "Name", None, write);
    assert_eq!(registry.value("Key", "Name"), Some("changed"));
}

#[test]
fn get_path_reads_path_under_environment() {
    let registry = Registry::holding("Environment", "PATH", "C:\\old\\path");
    assert_eq!(get_path(&registry, read).unwrap(), Some("C:\\old\\path".to_string()));
    let elsewhere = Registry::holding("Environment", "Path2", "x");
    assert_eq!(get_path(&elsewhere, read).unwrap(), None::<String>);
}

#[test]
fn restore_path_writes_path_under_environment() {
    let mut registry = Registry::empty();
    restore_path(&mut registry, Some("C:\\old\\path".to_string()), write);
    assert_eq!(registry.value("Environment", "PATH"), Some("C:\\old\\path"));
    restore_path(&mut registry, None, write);
    assert_eq!(registry.value("Environment", "PATH"), None);
}

#[test]
fn search_path_is_put_back_after_the_body_changes_it() {
    let lock = Mutex::new(());
    let mut registry = Registry::holding("Environment", "PATH", "C:\\old\\path");
    let outcome = with_saved_path(&lock.lock(), &mut registry, read, write, |r: &mut Registry| {
        r.put("Environment", "PATH", "C:\\new\\path");
        assert_eq!(get_path(&*r, read).unwrap(), Some("C:\\new\\path".to_string()));
    });
    assert!(outcome.is_ok());
    assert_eq!(get_path(&registry, read).unwrap(), Some("C:\\old\\path".to_string()));
    assert_eq!(registry.log, vec!["put Environment PATH C:\\old\\path".to_string()]);
}

#[test]
fn search_path_created_by_the_body_is_deleted() {
    let lock = Mutex::new(());
    let mut registry = Registry::empty();
    let outcome = with_saved_path(&lock.lock(), &mut registry, read, write, |r: &mut Registry| {
        r.put("Environment", "PATH", "C:\\new\\path");
    });
    assert!(outcome.is_ok());
    assert_eq!(get_path(&registry, read).unwrap(), None::<String>);
}

#[test]
fn search_path_session_leaves_other_values_to_the_body() {
    let lock = Mutex::new(());
    let mut registry = Registry::holding("Environment", "PATH", "p");
    let outcome = with_saved_path(&lock.lock(), &mut registry, read, write, |r: &mut Registry| {
        r.put("Environment", "TEMP", "t");
    });
    assert!(outcome.is_ok());
    assert_eq!(registry.value("Environment", "TEMP"), Some("t"));
}

#[test]
fn display_version_created_by_the_body_is_deleted() {
    let lock = Mutex::new(());
    let mut registry = Registry::empty();
    let outcome = with_saved_programs_display_version(
        &lock.lock(),
        &mut registry,
        UNINSTALL,
        read,
        write,
        |r: &mut Registry| r.put(UNINSTALL, "DisplayVersion", "1.2.3"),
    );
    assert!(outcome.is_ok());
    assert_eq!(get_reg_value(&registry, UNINSTALL, "DisplayVersion", read).unwrap(), None::<String>);
    assert_eq!(registry.log, vec![format!("delete {UNINSTALL} DisplayVersion")]);
}

#[test]
fn display_version_is_put_back_after_the_body_deletes_it() {
    let lock = Mutex::new(());
    let mut registry = Registry::holding(UNINSTALL, "DisplayVersion", "1.0.0");
    let outcome = with_saved_programs_display_version(
        &lock.lock(),
        &mut registry,
        UNINSTALL,
        read,
        write,
        |r: &mut Registry| r.remove(UNINSTALL, "DisplayVersion"),
    );
    assert!(outcome.is_ok());
    assert_eq!(registry.value(UNINSTALL, "DisplayVersion"), Some("1.0.0"));
}

#[test]
fn unreadable_store_ends_the_session_before_the_body() {
    let lock = Mutex::new(());
    let mut registry = Registry::holding("Environment", "PATH", "kept");
    registry.unreadable = true;
    let mut ran = false;
    let outcome = with_saved_path(&lock.lock(), &mut registry, read, write, |_r: &mut Registry| {
        ran = true;
    });
    assert_eq!(outcome.unwrap_err().kind(), io::ErrorKind::PermissionDenied);
    assert!(!ran);
    assert!(registry.log.is_empty());
    assert_eq!(registry.value("Environment", "PATH"), Some("kept"));
    assert!(lock.try_lock().is_ok());
}

#[test]
fn failed_write_back_does_not_hide_the_body_result() {
    let lock = Mutex::new(());
    let mut registry = Registry::holding("Environment", "PATH", "before");
    let outcome = with_saved_path(&lock.lock(), &mut registry, read, write, |r: &mut Registry| {
        r.put("Environment", "PATH", "changed");
        r.read_only = true;
        7
    });
    assert_eq!(outcome.unwrap(), 7);
    assert_eq!(registry.value("Environment", "PATH"), Some("changed"));
    assert!(registry.log.is_empty());
}

#[test]
fn store_session_hands_back_a_failure_of_the_body() {
    let lock = Mutex::new(());
    let mut registry = Registry::empty();
    let outcome = with_saved_programs_display_version(
        &lock.lock(),
        &mut registry,
        UNINSTALL,
        read,
        write,
        |r: &mut Registry| {
            r.put(UNINSTALL, "DisplayVersion", "left behind");
            Err::<u8, &str>("body failed")
        },
    );
    assert_eq!(outcome.unwrap(), Err("body failed"));
    assert_eq!(registry.value(UNINSTALL, "DisplayVersion"), None);
}

#[test]
fn store_session_holds_the_lock_for_the_body() {
    let lock = Mutex::new(());
    let mut registry = Registry::empty();
    let held = with_saved_path(&lock.lock(), &mut registry, read, write, |_r: &mut Registry| {
        lock.try_lock().is_err()
    });
    assert_eq!(held.unwrap(), true);
    assert!(lock.try_lock().is_ok());
}
