use gattrs::AnnExpr;
use gattrs::AnnKey;
use gattrs::AnnValue;
use gattrs::BusAction;
use gattrs::BusEvent;
use gattrs::GattCharacteristicArgs;
use gattrs::GattServiceArgs;
use gattrs::GenError;
use gattrs::HookError;
use gattrs::ParseError;
use gattrs::RegPhase;
use gattrs::gatt_characteristic;
use gattrs::gatt_service;
use gattrs::path::is_valid_object_path;
use gattrs::path::resolve_path;

fn assign(key: &str, value: AnnValue) -> AnnExpr {
    AnnExpr::Assign(AnnKey::Ident(key.to_string()), value)
}

fn s(text: &str) -> AnnValue {
    AnnValue::StrLit(text.to_string())
}

fn strings(items: &[&str]) -> AnnValue {
    AnnValue::Array(items.iter().map(|t| AnnValue::StrLit(t.to_string())).collect())
}

fn chrc_args(uuid: &str, flags: &[&str]) -> GattCharacteristicArgs {
    GattCharacteristicArgs {
        uuid: uuid.to_string(),
        flags: Some(flags.iter().map(|f| f.to_string()).collect()),
        service: None,
        path: None,
    }
}

#[test]
fn service_parse_accepts_uuid_only() {
    let exprs = vec![assign("uuid", s("180f"))];
    let args = GattServiceArgs::parse(&exprs).unwrap();
    assert_eq!(args.uuid, "180f");
    assert_eq!(args.path, None);
    assert_eq!(args.primary, None);
}

#[test]
fn service_parse_accepts_all_keys() {
    let exprs = vec![
        assign("uuid", s("180f")),
        assign("primary", AnnValue::BoolLit(false)),
        assign("path", s("/org/example/battery")),
    ];
    let args = GattServiceArgs::parse(&exprs).unwrap();
    assert_eq!(args.uuid, "180f");
    assert_eq!(args.primary, Some(false));
    assert_eq!(args.path.as_deref(), Some("/org/example/battery"));
}

#[test]
fn service_parse_last_duplicate_wins() {
    let exprs = vec![assign("uuid", s("1111")), assign("uuid", s("2222"))];
    let args = GattServiceArgs::parse(&exprs).unwrap();
    assert_eq!(args.uuid, "2222");
}

#[test]
fn service_parse_missing_uuid_fails() {
    let exprs = vec![assign("primary", AnnValue::BoolLit(true))];
    let err = GattServiceArgs::parse(&exprs).unwrap_err();
    assert_eq!(err, ParseError::MissingUuid);
    assert_eq!(err.message(), "uuid must be defined");
}

#[test]
fn service_parse_empty_list_fails() {
    let err = GattServiceArgs::parse(&vec![]).unwrap_err();
    assert_eq!(err, ParseError::MissingUuid);
}

#[test]
fn service_parse_unknown_key_fails() {
    let exprs = vec![assign("uuid", s("180f")), assign("color", s("green"))];
    let err = GattServiceArgs::parse(&exprs).unwrap_err();
    assert!(matches!(&err, ParseError::UnknownArg(n) if n == "color"));
    assert_eq!(err.message(), "Unknown arg color");
}

#[test]
fn service_parse_type_mismatch_fails() {
    let exprs = vec![assign("uuid", AnnValue::BoolLit(true))];
    let err = GattServiceArgs::parse(&exprs).unwrap_err();
    assert!(matches!(&err, ParseError::WrongType(n, _) if n == "uuid"));
    assert_eq!(err.message(), "Arg uuid must be of type String");
}

#[test]
fn service_parse_primary_mismatch_names_bool() {
    let exprs = vec![assign("uuid", s("180f")), assign("primary", s("yes"))];
    let err = GattServiceArgs::parse(&exprs).unwrap_err();
    assert_eq!(err.message(), "Arg primary must be of type bool");
}

#[test]
fn service_parse_rejects_non_assignment() {
    let exprs = vec![AnnExpr::Other];
    let err = GattServiceArgs::parse(&exprs).unwrap_err();
    assert_eq!(err, ParseError::NotAnExpression);
    assert_eq!(err.message(), "Arguments must be expressions (ex: primary = false)");
}

#[test]
fn service_parse_rejects_non_identifier_key() {
    let exprs = vec![AnnExpr::Assign(AnnKey::Other, s("180f"))];
    let err = GattServiceArgs::parse(&exprs).unwrap_err();
    assert_eq!(err, ParseError::KeyNotAnIdentifier);
    assert_eq!(err.message(), "Args must be comma separated");
}

#[test]
fn service_parse_rejects_numeric_literal() {
    let exprs = vec![assign("uuid", AnnValue::OtherLit)];
    let err = GattServiceArgs::parse(&exprs).unwrap_err();
    assert_eq!(err, ParseError::InvalidValue);
    assert_eq!(
        err.message(),
        "Right side of expression must be string literal or boolean value"
    );
}

#[test]
fn service_parse_first_error_wins() {
    let exprs = vec![assign("color", s("green")), AnnExpr::Other];
    let err = GattServiceArgs::parse(&exprs).unwrap_err();
    assert!(matches!(&err, ParseError::UnknownArg(n) if n == "color"));
}

#[test]
fn characteristic_parse_accepts_all_keys() {
    let exprs = vec![
        assign("uuid", s("2a19")),
        assign("flags", strings(&["read", "notify"])),
        assign("service", s("battery")),
        assign("path", s("/org/example/level")),
    ];
    let args = GattCharacteristicArgs::parse(&exprs).unwrap();
    assert_eq!(args.uuid, "2a19");
    assert_eq!(args.flags, Some(vec!["read".to_string(), "notify".to_string()]));
    assert_eq!(args.service.as_deref(), Some("battery"));
    assert_eq!(args.path.as_deref(), Some("/org/example/level"));
}

#[test]
fn characteristic_parse_missing_uuid_fails() {
    let exprs = vec![assign("flags", strings(&["read"]))];
    let err = GattCharacteristicArgs::parse(&exprs).unwrap_err();
    assert_eq!(err, ParseError::MissingUuid);
}

#[test]
fn characteristic_parse_flags_must_be_list() {
    let exprs = vec![assign("uuid", s("2a19")), assign("flags", s("read"))];
    let err = GattCharacteristicArgs::parse(&exprs).unwrap_err();
    assert!(matches!(&err, ParseError::WrongType(n, _) if n == "flags"));
    assert_eq!(err.message(), "Arg flags must be of type Vec<String>");
}

#[test]
fn characteristic_parse_rejects_mixed_array() {
    let exprs = vec![assign("uuid", s("2a19")), assign(
        "flags",
        AnnValue::Array(vec![AnnValue::StrLit("read".to_string()), AnnValue::BoolLit(true)]),
    )];
    let err = GattCharacteristicArgs::parse(&exprs).unwrap_err();
    assert_eq!(err, ParseError::InvalidValue);
}

#[test]
fn read_only_characteristic_has_read_hook_alone() {
    let c = gatt_characteristic(chrc_args("2a19", &["read"]), "Battery".to_string()).unwrap();
    assert!(c.caps.has_read);
    assert!(!c.caps.has_write);
    assert!(!c.caps.has_notify);
    assert_eq!(c.read_value(Ok(vec![7u8])), Ok(vec![7u8]));
    assert_eq!(c.write_value(Ok(())), Err(HookError::NotSupported));
    assert_eq!(c.start_notify(), Err(HookError::NotSupported));
    assert_eq!(c.stop_notify(), Err(HookError::NotSupported));
}

#[test]
fn full_flag_set_selects_every_hook() {
    let c = gatt_characteristic(chrc_args("2a19", &["read", "write", "notify"]), "Battery".to_string())
        .unwrap();
    assert!(c.caps.has_read && c.caps.has_write && c.caps.has_notify);
    assert_eq!(c.read_value(Ok(vec![1u8, 2u8])), Ok(vec![1u8, 2u8]));
    assert_eq!(c.write_value(Ok(())), Ok(()));
    assert_eq!(c.start_notify(), Ok(()));
    assert_eq!(c.stop_notify(), Ok(()));
    let mut c = c.register_at("/svc");
    assert!(c.notify(vec![9u8]).is_some());
}

#[test]
fn flag_matching_is_by_substring_with_read_precedence() {
    let c = gatt_characteristic(chrc_args("2a19", &["encrypt-read", "readwrite"]), "X".to_string())
        .unwrap();
    assert!(c.caps.has_read);
    assert!(!c.caps.has_write);
    assert!(!c.caps.has_notify);
}

#[test]
fn duplicate_flags_select_the_hook_once() {
    let c = gatt_characteristic(chrc_args("2a19", &["read", "read"]), "X".to_string()).unwrap();
    assert!(c.caps.has_read && !c.caps.has_write && !c.caps.has_notify);
}

#[test]
fn bogus_flag_aborts_generation() {
    let err = gatt_characteristic(chrc_args("2a19", &["bogus"]), "Battery".to_string()).unwrap_err();
    assert!(matches!(&err, GenError::InvalidCharacteristicFlag(f) if f == "bogus"));
    assert_eq!(err.message(), "Invalid characteristic flag \"bogus\"");
}

#[test]
fn no_flags_selects_no_hooks() {
    let args = GattCharacteristicArgs {
        uuid: "2a19".to_string(),
        flags: None,
        service: None,
        path: None,
    };
    let c = gatt_characteristic(args, "Battery".to_string()).unwrap();
    assert!(!c.caps.has_read && !c.caps.has_write && !c.caps.has_notify);
}

#[test]
fn object_path_validity() {
    assert!(is_valid_object_path("/"));
    assert!(is_valid_object_path("/org/example/Battery_1"));
    assert!(!is_valid_object_path(""));
    assert!(!is_valid_object_path("org/example"));
    assert!(!is_valid_object_path("/org/example/"));
    assert!(!is_valid_object_path("/org//example"));
    assert!(!is_valid_object_path("/org/ex-ample"));
}

#[test]
fn path_resolution_joins_parent_and_name() {
    assert_eq!(resolve_path(&None, "/org/example", "Battery"), "/org/example/Battery");
}

#[test]
fn path_resolution_avoids_doubled_root_separator() {
    assert_eq!(resolve_path(&None, "/", "Battery"), "/Battery");
}

#[test]
fn path_resolution_prefers_valid_override() {
    let over = Some("/org/custom".to_string());
    assert_eq!(resolve_path(&over, "/org/example", "Battery"), "/org/custom");
}

#[test]
fn path_resolution_ignores_invalid_override() {
    let over = Some("not-a-path".to_string());
    assert_eq!(resolve_path(&over, "/org/example", "Battery"), "/org/example/Battery");
}

#[test]
fn characteristic_path_from_service() {
    let c = gatt_characteristic(chrc_args("2a19", &["read"]), "Battery".to_string()).unwrap();
    assert_eq!(c.get_path("/org/example"), "/org/example/Battery");
    assert_eq!(c.get_path("/"), "/Battery");
}

#[test]
fn service_factory_defaults_primary_to_true() {
    let args = GattServiceArgs { uuid: "180f".to_string(), path: None, primary: None };
    let svc = gatt_service(args, "BatteryService".to_string());
    assert!(svc.primary);
    assert_eq!(svc.uuid, "180f");
    let args = GattServiceArgs { uuid: "180f".to_string(), path: None, primary: Some(false) };
    assert!(!gatt_service(args, "BatteryService".to_string()).primary);
}

#[test]
fn registration_publishes_children_in_order_then_service() {
    let args = GattServiceArgs { uuid: "180f".to_string(), path: None, primary: None };
    let mut svc = gatt_service(args, "Battery".to_string());
    let level = gatt_characteristic(chrc_args("2a19", &["read"]), "Level".to_string()).unwrap();
    let state = gatt_characteristic(chrc_args("2a1a", &["notify"]), "State".to_string()).unwrap();
    svc.add_characteristic(level);
    svc.add_characteristic(state);

    let (reg, first) = svc.begin_registration("/org/example");
    let first_chrc = match first {
        BusAction::PublishCharacteristic(c) => c,
        BusAction::PublishService(_) => panic!("service published before its characteristics"),
    };
    assert_eq!(first_chrc.path.as_deref(), Some("/org/example/Battery/Level"));
    assert_eq!(first_chrc.service_path.as_deref(), Some("/org/example/Battery"));
    assert!(first_chrc.registered);

    let (reg, second) = reg.step(BusEvent::PublishOk);
    let second_chrc = match second {
        Some(BusAction::PublishCharacteristic(c)) => c,
        other => panic!("expected the second characteristic, got {:?}", other),
    };
    assert_eq!(second_chrc.path.as_deref(), Some("/org/example/Battery/State"));

    let (reg, third) = reg.step(BusEvent::PublishOk);
    let service_obj = match third {
        Some(BusAction::PublishService(s)) => s,
        other => panic!("expected the service publication, got {:?}", other),
    };
    assert_eq!(service_obj.path.as_deref(), Some("/org/example/Battery"));
    assert!(service_obj.registered);
    assert_eq!(
        service_obj.characteristic_paths,
        vec!["/org/example/Battery/Level".to_string(), "/org/example/Battery/State".to_string()]
    );

    let (reg, last) = reg.step(BusEvent::PublishOk);
    assert!(last.is_none());
    assert_eq!(reg.phase, RegPhase::Done);
}

#[test]
fn registration_failure_aborts_the_subtree() {
    let args = GattServiceArgs { uuid: "180f".to_string(), path: None, primary: None };
    let mut svc = gatt_service(args, "Battery".to_string());
    let level = gatt_characteristic(chrc_args("2a19", &["read"]), "Level".to_string()).unwrap();
    let state = gatt_characteristic(chrc_args("2a1a", &["notify"]), "State".to_string()).unwrap();
    svc.add_characteristic(level);
    svc.add_characteristic(state);

    let (reg, first) = svc.begin_registration("/org/example");
    assert!(matches!(first, BusAction::PublishCharacteristic(_)));
    let (reg, next) = reg.step(BusEvent::PublishRejected);
    assert!(next.is_none());
    assert_eq!(reg.phase, RegPhase::Failed);
    let (reg, next) = reg.step(BusEvent::PublishOk);
    assert!(next.is_none());
    assert_eq!(reg.phase, RegPhase::Failed);
}

#[test]
fn empty_service_publishes_itself_at_once() {
    let args = GattServiceArgs { uuid: "180f".to_string(), path: None, primary: None };
    let svc = gatt_service(args, "Battery".to_string());
    let (reg, first) = svc.begin_registration("/");
    let service_obj = match first {
        BusAction::PublishService(s) => s,
        other => panic!("expected the service publication, got {:?}", other),
    };
    assert_eq!(service_obj.path.as_deref(), Some("/Battery"));
    assert!(service_obj.characteristic_paths.is_empty());
    let (reg, last) = reg.step(BusEvent::PublishOk);
    assert!(last.is_none());
    assert_eq!(reg.phase, RegPhase::Done);
}

#[test]
fn service_path_override_is_used_verbatim() {
    let args = GattServiceArgs {
        uuid: "180f".to_string(),
        path: Some("/custom/spot".to_string()),
        primary: None,
    };
    let svc = gatt_service(args, "Battery".to_string());
    let (_reg, first) = svc.begin_registration("/org/example");
    match first {
        BusAction::PublishService(s) => assert_eq!(s.path.as_deref(), Some("/custom/spot")),
        other => panic!("expected the service publication, got {:?}", other),
    }
}

#[test]
fn notify_before_registration_is_a_silent_no_op() {
    let mut c = gatt_characteristic(chrc_args("2a19", &["notify"]), "Level".to_string()).unwrap();
    let emission = c.notify(vec![1u8, 2u8]);
    assert!(emission.is_none());
    assert!(c.notification_message.is_empty());
}

#[test]
fn notify_after_registration_emits_once_per_call() {
    let c = gatt_characteristic(chrc_args("2a19", &["notify"]), "Level".to_string()).unwrap();
    let mut c = c.register_at("/org/example/Battery");
    let emission = c.notify(vec![5u8]).expect("a registered characteristic must emit");
    assert_eq!(emission.path, "/org/example/Battery/Level");
    assert_eq!(c.notification_message, vec![5u8]);
    let again = c.notify(vec![6u8]).expect("each call emits exactly one signal");
    assert_eq!(again.path, "/org/example/Battery/Level");
    assert_eq!(c.notification_message, vec![6u8]);
}

#[test]
fn characteristic_value_property_tracks_notifications() {
    let c = gatt_characteristic(chrc_args("2a19", &["read", "notify"]), "Level".to_string()).unwrap();
    assert!(c.notification_message.is_empty());
    let mut c = c.register_at("/svc");
    c.notify(vec![42u8]);
    assert_eq!(c.notification_message, vec![42u8]);
}

#[test]
fn characteristic_parse_uuid_only_defaults() {
    let exprs = vec![assign("uuid", s("2a19"))];
    let args = GattCharacteristicArgs::parse(&exprs).unwrap();
    assert_eq!(args.uuid, "2a19");
    assert_eq!(args.flags, None);
    assert_eq!(args.service, None);
    assert_eq!(args.path, None);
}

#[test]
fn characteristic_parse_last_flags_win() {
    let exprs = vec![
        assign("uuid", s("2a19")),
        assign("flags", strings(&["read"])),
        assign("flags", strings(&["write", "notify"])),
    ];
    let args = GattCharacteristicArgs::parse(&exprs).unwrap();
    assert_eq!(args.flags, Some(vec!["write".to_string(), "notify".to_string()]));
}

#[test]
fn characteristic_parse_empty_flags_list() {
    let exprs = vec![assign("uuid", s("2a19")), assign("flags", strings(&[]))];
    let args = GattCharacteristicArgs::parse(&exprs).unwrap();
    assert_eq!(args.flags, Some(vec![]));
    let c = gatt_characteristic(args, "X".to_string()).unwrap();
    assert!(!c.caps.has_read && !c.caps.has_write && !c.caps.has_notify);
}

#[test]
fn characteristic_property_surface() {
    let mut args = chrc_args("2a19", &["read", "notify"]);
    args.service = Some("battery".to_string());
    let c = gatt_characteristic(args, "Level".to_string()).unwrap();
    assert_eq!(c.get_uuid(), "2a19");
    assert_eq!(c.get_flags(), &vec!["read".to_string(), "notify".to_string()]);
    assert_eq!(c.get_service(), &None);
    assert!(c.get_value().is_empty());
    let c = c.register_at("/svc");
    assert_eq!(c.get_service().as_deref(), Some("/svc"));
}

#[test]
fn service_property_surface() {
    let args = GattServiceArgs { uuid: "180f".to_string(), path: None, primary: Some(true) };
    let svc = gatt_service(args, "Battery".to_string());
    assert_eq!(svc.get_uuid(), "180f");
    assert!(svc.get_primary());
    assert!(svc.get_characteristics().is_empty());
}

#[test]
fn declaration_to_registration_end_to_end() {
    let svc_exprs = vec![assign("uuid", s("180f")), assign("primary", AnnValue::BoolLit(true))];
    let svc_args = GattServiceArgs::parse(&svc_exprs).unwrap();
    let mut svc = gatt_service(svc_args, "Battery".to_string());

    let chrc_exprs = vec![
        assign("uuid", s("2a19")),
        assign("flags", strings(&["read", "notify"])),
    ];
    let chrc = gatt_characteristic(
        GattCharacteristicArgs::parse(&chrc_exprs).unwrap(),
        "Level".to_string(),
    )
    .unwrap();
    svc.add_characteristic(chrc);

    let (reg, first) = svc.begin_registration("/org/example");
    let level = match first {
        BusAction::PublishCharacteristic(c) => c,
        other => panic!("expected the characteristic first, got {:?}", other),
    };
    assert_eq!(level.path.as_deref(), Some("/org/example/Battery/Level"));
    let (reg, second) = reg.step(BusEvent::PublishOk);
    let battery = match second {
        Some(BusAction::PublishService(sv)) => sv,
        other => panic!("expected the service next, got {:?}", other),
    };
    assert_eq!(battery.get_characteristics(), &vec!["/org/example/Battery/Level".to_string()]);
    let (reg, rest) = reg.step(BusEvent::PublishOk);
    assert!(rest.is_none());
    assert_eq!(reg.phase, RegPhase::Done);

    let mut level = level;
    let emission = level.notify(vec![88u8]).unwrap();
    assert_eq!(emission.path, "/org/example/Battery/Level");
}
