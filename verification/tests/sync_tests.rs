use ddns_sync::records::ARecord;
use ddns_sync::sync::{SyncCommand, Synchronizer};

fn record(id: &str, name: &str, content: &str) -> ARecord {
    ARecord { id: id.to_string(), name: name.to_string(), content: content.to_string() }
}

/// Drives a run in which every PATCH succeeds; returns the issued PATCH
/// commands in order and the names reported up to date.
fn drive_all_success(mut sync: Synchronizer) -> (Vec<(String, String, String)>, Vec<String>) {
    let mut patches = Vec::new();
    let mut fresh = Vec::new();
    loop {
        match sync.next_command() {
            SyncCommand::Patch { name, url, body } => {
                patches.push((name, url, body));
                sync.report_patch_outcome(true);
            }
            SyncCommand::UpToDate { name } => {
                fresh.push(name);
            }
            SyncCommand::Finished => break,
        }
        if sync.is_halted() {
            break;
        }
    }
    (patches, fresh)
}

#[test]
fn one_stale_one_fresh_record() {
    let records = vec![
        record("r1", "home.example.com", "203.0.113.1"),
        record("r2", "nas.example.com", "203.0.113.7"),
    ];
    let sync = Synchronizer::new(records, "203.0.113.7".to_string(), "zone456".to_string());
    let (patches, fresh) = drive_all_success(sync);
    assert_eq!(patches.len(), 1);
    assert_eq!(patches[0].0, "home.example.com");
    assert_eq!(
        patches[0].1,
        "https://api.cloudflare.com/client/v4/zones/zone456/dns_recordsr1"
    );
    assert_eq!(patches[0].2, "{\"content\":\"203.0.113.7\"}");
    assert_eq!(fresh, vec!["nas.example.com".to_string()]);
}

#[test]
fn second_run_with_unchanged_ip_is_idle() {
    let wan_ip = "203.0.113.7";
    let records = vec![
        record("r1", "home.example.com", "203.0.113.1"),
        record("r2", "nas.example.com", "203.0.113.7"),
        record("r3", "cam.example.com", "198.51.100.9"),
    ];
    let first = Synchronizer::new(records, wan_ip.to_string(), "z".to_string());
    let (patches, _) = drive_all_success(first);
    assert_eq!(patches.len(), 2);

    // A fully successful run leaves every record carrying the WAN IP, so
    // the listing a second run would read has content == wan_ip throughout.
    let relisted: Vec<ARecord> = vec![
        record("r1", "home.example.com", wan_ip),
        record("r2", "nas.example.com", wan_ip),
        record("r3", "cam.example.com", wan_ip),
    ];
    let second = Synchronizer::new(relisted, wan_ip.to_string(), "z".to_string());
    let (patches2, fresh2) = drive_all_success(second);
    assert_eq!(patches2.len(), 0);
    assert_eq!(fresh2.len(), 3);
}

#[test]
fn failed_patch_halts_the_run() {
    let records = vec![
        record("r1", "one.example.com", "1.1.1.1"),
        record("r2", "two.example.com", "2.2.2.2"),
        record("r3", "three.example.com", "3.3.3.3"),
    ];
    let mut sync = Synchronizer::new(records, "203.0.113.7".to_string(), "z".to_string());
    let mut patch_calls = 0;
    loop {
        match sync.next_command() {
            SyncCommand::Patch { .. } => {
                patch_calls += 1;
                // The provider answers the very first PATCH with a failure.
                sync.report_patch_outcome(false);
            }
            SyncCommand::UpToDate { .. } => {}
            SyncCommand::Finished => break,
        }
        if sync.is_halted() {
            break;
        }
    }
    assert!(sync.is_halted());
    assert_eq!(patch_calls, 1);
}

#[test]
fn all_records_up_to_date() {
    let records = vec![
        record("r1", "one.example.com", "203.0.113.7"),
        record("r2", "two.example.com", "203.0.113.7"),
    ];
    let sync = Synchronizer::new(records, "203.0.113.7".to_string(), "z".to_string());
    let (patches, fresh) = drive_all_success(sync);
    assert_eq!(patches.len(), 0);
    assert_eq!(fresh.len(), 2);
}

#[test]
fn empty_record_list_finishes_immediately() {
    let sync = Synchronizer::new(Vec::new(), "203.0.113.7".to_string(), "z".to_string());
    let (patches, fresh) = drive_all_success(sync);
    assert_eq!(patches.len(), 0);
    assert_eq!(fresh.len(), 0);
}
