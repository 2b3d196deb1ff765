use ardrive_bridge::invoke::{
    choose_wallet_source, command_args, interpret_list_all_drives, interpret_list_drive,
    interpret_list_drive_files, plan_invocation, ArDriveError, Operation, WalletSource,
};
use ardrive_bridge::json::inspect_wallet;

#[test]
fn explicit_path_wins_over_every_other_source() {
    let wallet = Some(r#"{"kty":"RSA"}"#);
    assert_eq!(choose_wallet_source(true, wallet, true), Some(WalletSource::ExplicitPath));
    assert_eq!(choose_wallet_source(true, None, true), Some(WalletSource::ExplicitPath));
    assert_eq!(choose_wallet_source(true, wallet, false), Some(WalletSource::ExplicitPath));
    assert_eq!(choose_wallet_source(true, None, false), Some(WalletSource::ExplicitPath));
}

#[test]
fn environment_comes_before_stored_file() {
    assert_eq!(choose_wallet_source(false, Some("{}"), true), Some(WalletSource::Environment));
    assert_eq!(choose_wallet_source(false, Some(" \n "), true), Some(WalletSource::StoredFile));
    assert_eq!(choose_wallet_source(false, Some(""), false), None);
    assert_eq!(choose_wallet_source(false, None, false), None);
}

#[test]
fn argument_vectors_per_operation() {
    let op = Operation::ListDriveFiles { drive_id: "D".to_string() };
    assert_eq!(
        command_args(&op, "/tmp/w.json"),
        vec!["list-drive", "-d", "D", "--all", "--wallet-file", "/tmp/w.json"]
    );
    assert_eq!(
        command_args(&Operation::ListAllDrives, "w"),
        vec!["list-all-drives", "--wallet-file", "w"]
    );
    let op = Operation::ListDrive { drive_id: "E".to_string() };
    assert_eq!(command_args(&op, "w"), vec!["list-drive", "-d", "E", "--wallet-file", "w"]);
}

#[test]
fn system_binary_is_probed_first() {
    let plan = plan_invocation(&Operation::ListAllDrives, None, "w");
    assert_eq!(plan.program, "ardrive");
    assert!(plan.probe_version);
    assert_eq!(plan.env, vec![("NODE_ENV".to_string(), "production".to_string())]);
    let plan = plan_invocation(&Operation::ListAllDrives, Some("/p/ardrive".to_string()), "w");
    assert_eq!(plan.program, "/p/ardrive");
    assert!(!plan.probe_version);
}

#[test]
fn failed_exit_keeps_stderr_verbatim() {
    let r = interpret_list_drive_files("D", false, Some(2), "out", " boom \n", None);
    match r {
        Err(ArDriveError::SubprocessFailed { command, exit_code, stdout, stderr }) => {
            assert_eq!(stderr, " boom \n");
            assert_eq!(stdout, "out");
            assert_eq!(exit_code, Some(2));
            assert_eq!(command, vec!["list-drive", "-d", "D", "--all", "--wallet-file", "<wallet>"]);
        }
        other => panic!("unexpected {:?}", other),
    }
    match interpret_list_all_drives(false, None, "", "denied") {
        Err(ArDriveError::SubprocessFailed { stderr, .. }) => assert_eq!(stderr, "denied"),
        other => panic!("unexpected {:?}", other),
    }
    match interpret_list_drive("D", false, Some(1), "", "nope") {
        Err(ArDriveError::SubprocessFailed { stderr, .. }) => assert_eq!(stderr, "nope"),
        other => panic!("unexpected {:?}", other),
    }
}

#[test]
fn successful_list_drive_passes_output_on() {
    assert_eq!(interpret_list_drive("D", true, Some(0), "listing", "warn"), Ok("listing".to_string()));
}

#[test]
fn empty_stdout_is_not_a_parse_error() {
    assert_eq!(interpret_list_drive_files("D", true, Some(0), "", "", None), Err(ArDriveError::EmptyOutput));
    assert_eq!(interpret_list_all_drives(true, Some(0), "\n", "noise").unwrap_err(), ArDriveError::EmptyOutput);
}

#[test]
fn blank_stdout_with_byte_order_mark_is_empty_output() {
    assert_eq!(
        interpret_list_drive_files("D", true, Some(0), " \u{feff}\n", "", None),
        Err(ArDriveError::EmptyOutput)
    );
    assert_eq!(
        interpret_list_all_drives(true, Some(0), "\u{feff}\u{feff} \t", "").unwrap_err(),
        ArDriveError::EmptyOutput
    );
}

#[test]
fn unparseable_output_carries_the_parser_line() {
    match interpret_list_all_drives(true, Some(0), "{\n\"a\": }", "") {
        Err(ArDriveError::Unparseable { text, line, message }) => {
            assert_eq!(text, "{\n\"a\": }");
            assert_eq!(line, 2);
            assert!(message.contains("line 2"));
        }
        other => panic!("unexpected {:?}", other),
    }
}

#[test]
fn invalid_entity_is_reported() {
    let r = interpret_list_drive_files("D", true, Some(0), "", "Invalid entity ID: D", None);
    assert_eq!(r, Err(ArDriveError::InvalidDriveId));
}

#[test]
fn listing_decodes_and_filters_files() {
    let out = r#"[{"name":"a.json","dataTxId":"A"},{"name":"b.png","dataTxId":"B"}]"#;
    let all = interpret_list_drive_files("D", true, Some(0), out, "", None).unwrap();
    assert_eq!(all.len(), 2);
    let json = interpret_list_drive_files("D", true, Some(0), out, "", Some("json")).unwrap();
    assert_eq!(json.len(), 1);
    assert_eq!(json[0].data_tx_id, Some("A".to_string()));
}

#[test]
fn bad_record_fails_the_whole_listing() {
    let out = r#"[{"name":"a.json"},{"name":["b"]}]"#;
    let r = interpret_list_drive_files("D", true, Some(0), out, "", Some("json"));
    assert_eq!(r, Err(ArDriveError::RecordDecode { index: 1, field: Some("name".to_string()) }));
}

#[test]
fn output_errors_are_distinguished() {
    assert!(matches!(
        interpret_list_drive_files("D", true, Some(0), "error: no access", "", None),
        Err(ArDriveError::ErrorInOutput { .. })
    ));
    assert!(matches!(
        interpret_list_all_drives(true, Some(0), "garbage", ""),
        Err(ArDriveError::Unparseable { .. })
    ));
    assert!(matches!(
        interpret_list_all_drives(true, Some(0), "true", ""),
        Err(ArDriveError::UnexpectedShape { .. })
    ));
}

#[test]
fn all_drives_listing_decodes_drives() {
    let out = "\x1b[0m{\"drives\":[{\"driveId\":\"x\",\"name\":\"X\"}]}";
    let drives = interpret_list_all_drives(true, Some(0), out, "").unwrap();
    assert_eq!(drives.len(), 1);
    assert_eq!(drives[0].name, Some("X".to_string()));
}

#[test]
fn wallet_inspection_lists_keys() {
    let view = inspect_wallet(r#"{"n":"1","e":"AQAB","kty":"RSA"}"#);
    assert_eq!(view.keys, Some(vec!["e".to_string(), "kty".to_string(), "n".to_string()]));
    assert!(view.pretty.unwrap().contains("kty"));
    let view = inspect_wallet("not json");
    assert_eq!(view.keys, None);
    assert_eq!(view.pretty, None);
    assert_eq!(inspect_wallet("[1]").keys, None);
}
