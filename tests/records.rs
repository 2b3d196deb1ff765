use ardrive_bridge::records::{
    content_type_for_extension, decode_files, filter_by_extension, ArDriveDrive, ArDriveFile,
    RecordError,
};

fn value(text: &str) -> serde_json::Value {
    serde_json::from_str(text).unwrap()
}

fn named(name: &str) -> ArDriveFile {
    ArDriveFile {
        entity_type: None,
        name: Some(name.to_string()),
        data_tx_id: None,
        metadata_tx_id: None,
        parent_folder_id: None,
        size: None,
        last_modified_date: None,
        content_type: None,
        data_content_type: None,
    }
}

#[test]
fn file_record_decodes_field_by_field() {
    let v = value(
        r#"{"entityType":"file","name":"a.png","dataTxId":"D","metadataTxId":"M",
            "parentFolderId":"P","size":1024,"lastModifiedDate":7,"extra":true}"#,
    );
    let f = ArDriveFile::from_value(&v).unwrap();
    assert_eq!(f.name, Some("a.png".to_string()));
    assert_eq!(f.data_tx_id, Some("D".to_string()));
    assert_eq!(f.metadata_tx_id, Some("M".to_string()));
    assert_eq!(f.size, Some(1024));
    assert_eq!(f.last_modified_date, Some(7));
    assert_eq!(f.content_type, None);
}

#[test]
fn null_fields_decode_as_absent() {
    let f = ArDriveFile::from_value(&value(r#"{"name":null,"size":null}"#)).unwrap();
    assert_eq!(f, ArDriveFile { name: None, ..named("x") });
}

#[test]
fn mistyped_field_fails_with_its_position() {
    let recs = vec![value(r#"{"name":"ok"}"#), value(r#"{"name":5}"#), value("3")];
    assert_eq!(
        decode_files(&recs),
        Err(RecordError { index: 1, field: Some("name".to_string()) })
    );
    let recs = vec![value("3")];
    assert_eq!(decode_files(&recs), Err(RecordError { index: 0, field: None }));
}

#[test]
fn negative_size_does_not_decode() {
    assert_eq!(
        ArDriveFile::from_value(&value(r#"{"size":-1}"#)),
        Err(Some("size".to_string()))
    );
}

#[test]
fn drive_record_decodes_with_metadata() {
    let v = value(
        r#"{"driveId":"d1","name":"Main","unixTime":5,"drivePrivacy":"public",
            "customMetaDataJson":{"k":"v"},"driveSignatureType":1}"#,
    );
    let d = ArDriveDrive::from_value(&v).unwrap();
    assert_eq!(d.drive_id, Some("d1".to_string()));
    assert_eq!(d.unix_time, Some(5));
    assert_eq!(d.drive_signature_type, Some(1));
    assert_eq!(d.custom_meta_data_json.unwrap().len(), 1);
    assert!(d.custom_meta_data_gql_tags.is_none());
}

#[test]
fn oversized_signature_type_does_not_decode() {
    let v = value(r#"{"driveSignatureType":300}"#);
    assert_eq!(
        ArDriveDrive::from_value(&v).unwrap_err(),
        Some("driveSignatureType".to_string())
    );
}

#[test]
fn filtering_keeps_matching_extension_in_order() {
    let files = vec![named("a.json"), named("b.png"), named("c.json"), named("json")];
    let kept = filter_by_extension(files, "json");
    assert_eq!(kept, vec![named("a.json"), named("c.json")]);
}

#[test]
fn find_in_list_matches_id_or_name() {
    let v = value(r#"[{"driveId":"id1","name":"first"},{"driveId":"id2","name":"second"}]"#);
    let drives: Vec<ArDriveDrive> = v
        .as_array()
        .unwrap()
        .iter()
        .map(|d| ArDriveDrive::from_value(d).unwrap())
        .collect();
    assert_eq!(
        ArDriveDrive::find_in_list(&drives, "second").unwrap().drive_id,
        Some("id2".to_string())
    );
    assert_eq!(
        ArDriveDrive::find_in_list(&drives, "id1").unwrap().name,
        Some("first".to_string())
    );
    assert!(ArDriveDrive::find_in_list(&drives, "none").is_none());
}

#[test]
fn content_type_is_stated_or_inferred() {
    assert_eq!(content_type_for_extension("jpeg"), "image/jpeg");
    assert_eq!(content_type_for_extension("json"), "application/json");
    assert_eq!(content_type_for_extension("txt"), "application/octet-stream");
    assert_eq!(named("dir/A.PNG").content_type_or_inferred(), "image/png");
    assert_eq!(named("photo.Jpg").content_type_or_inferred(), "image/jpeg");
    assert_eq!(named("README").content_type_or_inferred(), "application/octet-stream");
    let stated = ArDriveFile { content_type: Some("text/plain".to_string()), ..named("a.json") };
    assert_eq!(stated.content_type_or_inferred(), "text/plain");
    let data = ArDriveFile { data_content_type: Some("video/mp4".to_string()), ..named("a.png") };
    assert_eq!(data.content_type_or_inferred(), "video/mp4");
    let unnamed = ArDriveFile { name: None, ..named("x") };
    assert_eq!(unnamed.content_type_or_inferred(), "application/octet-stream");
}
