use ardrive_bridge::cache::{get_arweave_url, import_cache_items, project_cache_items, CacheItem};
use ardrive_bridge::records::{filter_by_extension, ArDriveFile};

fn file(name: Option<&str>, data: Option<&str>, meta: Option<&str>) -> ArDriveFile {
    ArDriveFile {
        entity_type: None,
        name: name.map(|s| s.to_string()),
        data_tx_id: data.map(|s| s.to_string()),
        metadata_tx_id: meta.map(|s| s.to_string()),
        parent_folder_id: None,
        size: None,
        last_modified_date: None,
        content_type: None,
        data_content_type: None,
    }
}

#[test]
fn arweave_url_appends_the_transaction() {
    assert_eq!(get_arweave_url("abc"), "https://arweave.net/abc");
    assert_eq!(get_arweave_url(""), "https://arweave.net/");
}

#[test]
fn projection_keys_by_position_and_links_data() {
    let files = vec![file(Some("x.png"), Some("T1"), None), file(Some("y.json"), Some("T2"), None)];
    let items = project_cache_items(&files);
    assert_eq!(items.len(), 2);
    assert_eq!(items[0].0, "0");
    assert_eq!(items[1].0, "1");
    assert_eq!(items[0].1.image_link, "https://arweave.net/T1");
    assert_eq!(items[1].1.image_link, "https://arweave.net/T2");
    assert_eq!(items[0].1.image_hash, "T1");
    assert!(!items[0].1.on_chain);
    assert!(!items[1].1.on_chain);
    assert_eq!(items[0].1.metadata_link, "");
    assert_eq!(items[0].1.animation_hash, None);
}

#[test]
fn projection_names_unnamed_files_by_key() {
    let files: Vec<ArDriveFile> = (0..11).map(|_| file(None, None, Some("M"))).collect();
    let items = project_cache_items(&files);
    assert_eq!(items[10].0, "10");
    assert_eq!(
        items[10].1,
        CacheItem {
            name: "10".to_string(),
            image_hash: String::new(),
            image_link: String::new(),
            metadata_hash: "M".to_string(),
            metadata_link: "https://arweave.net/M".to_string(),
            on_chain: false,
            animation_hash: None,
            animation_link: None,
        }
    );
}

#[test]
fn empty_transaction_gives_no_link() {
    let items = project_cache_items(&vec![file(Some("a"), Some(""), None)]);
    assert_eq!(items[0].1.image_hash, "");
    assert_eq!(items[0].1.image_link, "");
}

#[test]
fn filtered_listing_is_renumbered_from_zero() {
    let files = vec![file(Some("a.json"), Some("A"), None), file(Some("b.png"), Some("B"), None)];
    let items = project_cache_items(&filter_by_extension(files, "json"));
    assert_eq!(items.len(), 1);
    assert_eq!(items[0].0, "0");
    assert_eq!(items[0].1.name, "a.json");
}

#[test]
fn import_skips_blank_lines_and_keeps_positions() {
    let lines = vec![
        "https://arweave.net/a".to_string(),
        "   ".to_string(),
        "https://arweave.net/b".to_string(),
    ];
    let items = import_cache_items(&lines);
    assert_eq!(items.len(), 2);
    assert_eq!(items[0].0, "0");
    assert_eq!(items[0].1.name, "NFT #1");
    assert_eq!(items[0].1.metadata_link, "https://arweave.net/a");
    assert_eq!(items[1].0, "2");
    assert_eq!(items[1].1.name, "NFT #3");
    assert_eq!(items[1].1.image_link, "");
}
