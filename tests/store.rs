use deep_freeze::catalog::{count_files, file_records, needs_catalog, next_cursor, CatalogEntry, EntryTag, ListingPage};
use deep_freeze::http::dropbox_authorization_code_url;
use deep_freeze::paths::{staging_path, standardize_path};
use deep_freeze::record::{FileRecord, MigrationStatus};
use deep_freeze::report::{
    count_migrated, count_rows, count_unmigrated, get_dropbox_size, get_migrated_size, get_row,
    get_total_size, get_unmigrated_size, report_status,
};

fn entry(tag: EntryTag, id: &str, path: &str, size: u64) -> CatalogEntry {
    CatalogEntry {
        tag,
        id: id.to_string(),
        path_display: path.to_string(),
        size,
        content_hash: format!("h-{id}"),
    }
}

fn store() -> Vec<FileRecord> {
    let mut records = vec![
        FileRecord::new("id:1".to_string(), "/a".to_string(), 100, "h".to_string()),
        FileRecord::new("id:2".to_string(), "/b".to_string(), 300, "h".to_string()),
        FileRecord::new("id:3".to_string(), "/c".to_string(), 600, "h".to_string()),
    ];
    records[1].set_migrated();
    records
}

#[test]
fn counts_and_sizes() {
    let records = store();
    assert_eq!(count_rows(&records), 3);
    assert_eq!(count_migrated(&records), 1);
    assert_eq!(count_unmigrated(&records), 2);
    assert_eq!(get_total_size(&records), 1000);
    assert_eq!(get_migrated_size(&records), 300);
    assert_eq!(get_unmigrated_size(&records), 700);
}

#[test]
fn report_gives_percent_of_size() {
    let r = report_status(&store());
    assert_eq!(r.total_rows, 3);
    assert_eq!(r.unmigrated_rows, 2);
    assert_eq!(r.percent, 30);
    assert_eq!(report_status(&vec![]).percent, 0);
}

#[test]
fn lookup_by_id() {
    let records = store();
    assert_eq!(get_dropbox_size(&records, &"id:3".to_string()), Some(600));
    assert_eq!(get_dropbox_size(&records, &"id:9".to_string()), None);
    let row = get_row(&records, &"id:2".to_string()).unwrap();
    assert_eq!(row.status, MigrationStatus::Migrated);
    assert!(get_row(&records, &"id:9".to_string()).is_none());
}

#[test]
fn listing_page_becomes_records() {
    let page = ListingPage {
        entries: vec![
            entry(EntryTag::Folder, "id:f", "/dir", 0),
            entry(EntryTag::File, "id:1", "/dir/a.txt", 22),
            entry(EntryTag::Deleted, "id:d", "/dir/gone", 0),
            entry(EntryTag::File, "id:2", "/dir/b.txt", 7),
        ],
        has_more: true,
        cursor: "c1".to_string(),
    };
    assert_eq!(count_files(&page), 2);
    let records = file_records(&page);
    assert_eq!(records.len(), 2);
    assert_eq!(records[0].source_id, "id:1");
    assert_eq!(records[0].source_size, 22);
    assert_eq!(records[1].source_content_hash, "h-id:2");
    assert_eq!(records[1].status, MigrationStatus::Unverified);
    assert_eq!(next_cursor(&page), Some("c1".to_string()));
    let last = ListingPage { entries: vec![], has_more: false, cursor: "c2".to_string() };
    assert_eq!(next_cursor(&last), None);
    assert!(needs_catalog(0));
    assert!(!needs_catalog(4));
}

#[test]
fn destination_key_drops_base_folder() {
    let key = standardize_path("/deep-freeze-test/sub/my_channel.txt", "/deep-freeze-test");
    assert_eq!(key, Some("sub/my_Channel.txt".to_string()));
}

#[test]
fn unparsable_base_folder_gives_no_key() {
    assert_eq!(standardize_path("/a(b/c.txt", "/a(b"), None);
}

#[test]
fn staging_path_uses_source_id() {
    assert_eq!(staging_path("temp", "id:42"), "temp/id:42");
}

#[test]
fn authorization_url() {
    assert_eq!(
        dropbox_authorization_code_url(),
        "https://www.dropbox.com/oauth2/authorize?client_id=5mmsu1p6otobzgk&token_access_type=offline&response_type=code"
    );
}
