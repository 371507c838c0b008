use downonspot::device::{device_id, device_name};
use downonspot::login::{
    check_login_target, credentials_save_report, login_failure, login_identity, login_service, LoginStage,
};
use downonspot::service::{service_info, speaker_record, speaker_service, speaker_txt_properties, SpeakerRecord};

#[test]
fn device_name_is_prefixed() {
    assert_eq!(device_name("alice"), "spotify-quickauth-alice");
    assert_eq!(device_name(""), "spotify-quickauth-");
}

#[test]
fn device_id_is_hex_sha1() {
    assert_eq!(device_id("spotify-quickauth-alice"), "4e276d24e7f5676c3c4cfab5b2e911b01e6fea31");
    assert_eq!(device_id("Speaker"), "7c23b0d99698b57c5cb21fafcb8a8daf127386c6");
    assert_eq!(device_id(""), "da39a3ee5e6b4b0d3255bfef95601890afd80709");
}

#[test]
fn login_identity_combines_name_and_id() {
    let id = login_identity("alice");
    assert_eq!(id.device_name, "spotify-quickauth-alice");
    assert_eq!(id.device_id, "4e276d24e7f5676c3c4cfab5b2e911b01e6fea31");
    assert_eq!(id.device_id.len(), 40);
}

#[test]
fn txt_properties_in_order() {
    let props = speaker_txt_properties("dev", "0123");
    let expected = vec![
        ("version", "1.0"),
        ("platform", "windows"),
        ("type", "speaker"),
        ("device", "dev"),
        ("device_id", "0123"),
    ];
    assert_eq!(props.len(), expected.len());
    for ((k, v), (ek, ev)) in props.iter().zip(expected) {
        assert_eq!(k, ek);
        assert_eq!(v, ev);
    }
}

#[test]
fn speaker_service_builds_record() {
    let service = speaker_service("Speaker", 8080, "spotify-quickauth-alice", "abcd").unwrap();
    let info = service.info;
    assert_eq!(info.get_port(), 8080);
    assert_eq!(info.get_type(), "_spotify-connect._tcp.local.");
    assert_eq!(info.get_hostname(), "RustSpeaker.local.");
    assert_eq!(info.get_property_val_str("device"), Some("spotify-quickauth-alice"));
    assert_eq!(info.get_property_val_str("type"), Some("speaker"));
}

#[test]
fn login_service_refuses_long_device_names() {
    let id = device_id("x");
    let fits = "n".repeat(248);
    assert!(login_service(&fits, &id).is_ok());
    let too_long = "n".repeat(249);
    let err = login_service(&too_long, &id).unwrap_err();
    assert!(err.starts_with("Errore creazione servizio: "));
    // multi-byte characters count by their UTF-8 bytes
    let wide = "é".repeat(125);
    assert!(login_service(&wide, &id).is_err());
    let wide_fits = "é".repeat(124);
    assert!(login_service(&wide_fits, &id).is_ok());
}

#[test]
fn login_target_check() {
    assert!(check_login_target(false, false).is_ok());
    assert!(check_login_target(false, true).is_ok());
    assert!(check_login_target(true, true).is_ok());
    assert_eq!(
        check_login_target(true, false).unwrap_err(),
        "File già esistente, usa --force per sovrascrivere"
    );
}

#[test]
fn login_failure_messages() {
    assert_eq!(login_failure(LoginStage::Daemon, "boom"), "Errore mDNS: boom");
    assert_eq!(login_failure(LoginStage::Register, "x"), "Errore registrazione mDNS: x");
    assert_eq!(login_failure(LoginStage::SaveCredentials, "disk"), "Errore salvataggio credenziali: disk");
}

#[test]
fn save_report() {
    let ok = credentials_save_report("creds.json", &Ok(()));
    assert_eq!(ok.exit_code, 0);
    assert!(!ok.warning);
    assert_eq!(ok.message, "Credentials saved: creds.json");
    let bad = credentials_save_report("creds.json", &Err("denied".to_string()));
    assert_eq!(bad.exit_code, 1);
    assert!(bad.warning);
    assert_eq!(bad.message, "Cannot save credentials to cache: denied");
}

#[test]
fn speaker_record_fields() {
    let r = speaker_record("Living room", 12345, "dev", "id");
    assert_eq!(r.service_type, "_spotify-connect._tcp.local.");
    assert_eq!(r.instance, "Living room");
    assert_eq!(r.host, "RustSpeaker.local.");
    assert_eq!(r.ip, [192, 168, 179, 75]);
    assert_eq!(r.port, 12345);
    assert_eq!(r.properties.len(), 5);
    assert_eq!(r.properties[3], ("device".to_string(), "dev".to_string()));
}

#[test]
fn service_info_refuses_bad_keys() {
    let record = |props: Vec<(&str, &str)>| SpeakerRecord {
        service_type: "_x._tcp.local.".to_string(),
        instance: "i".to_string(),
        host: "h.local.".to_string(),
        ip: [10, 0, 0, 1],
        port: 1,
        properties: props.into_iter().map(|(k, v)| (k.to_string(), v.to_string())).collect(),
    };
    assert!(service_info(record(vec![("ok", "v")])).is_ok());
    assert!(service_info(record(vec![("a=b", "v")])).is_err());
    assert!(service_info(record(vec![("clé", "v")])).is_err());
    let long = "v".repeat(253);
    assert!(service_info(record(vec![("k", long.as_str())])).is_ok());
    let longer = "v".repeat(254);
    assert!(service_info(record(vec![("k", longer.as_str())])).is_err());
    // a later pair replaces an earlier one with the same key
    assert!(service_info(record(vec![("k", longer.as_str()), ("k", "short")])).is_ok());
    let service = service_info(record(vec![("k", "v")])).unwrap();
    assert_eq!(service.info.get_port(), 1);
    assert_eq!(service.record.port, 1);
    assert_eq!(service.record.host, "h.local.");
}

#[test]
fn service_info_reduces_doubled_local() {
    let r = SpeakerRecord {
        service_type: "_x._tcp.local.".to_string(),
        instance: "i".to_string(),
        host: "a.local.local.".to_string(),
        ip: [10, 0, 0, 1],
        port: 1,
        properties: vec![],
    };
    let service = service_info(r).unwrap();
    assert_eq!(service.record.host, "a.local.");
    assert_eq!(service.record.addresses, vec!["10.0.0.1".to_string()]);
}

#[test]
fn speaker_service_reports_its_record() {
    let service = speaker_service("Living.room", 12345, "dev", "0123").unwrap();
    let r = service.record;
    assert_eq!(r.ty, "_spotify-connect._tcp.local.");
    assert_eq!(r.fullname, "Living\\.room._spotify-connect._tcp.local.");
    assert_eq!(r.host, "RustSpeaker.local.");
    assert_eq!(r.port, 12345);
    assert_eq!(r.addresses, vec!["192.168.179.75".to_string()]);
    let mut props = r.properties.clone();
    props.sort();
    let mut expected: Vec<(String, String)> = speaker_txt_properties("dev", "0123");
    expected.sort();
    assert_eq!(props, expected);
}

#[test]
fn login_service_announces_the_device() {
    let identity = login_identity("alice");
    let service = login_service(&identity.device_name, &identity.device_id).unwrap();
    assert_eq!(service.record.port, 12345);
    assert_eq!(service.record.fullname, "spotify-quickauth-alice._spotify-connect._tcp.local.");
    assert_eq!(service.info.get_property_val_str("device_id"), Some("4e276d24e7f5676c3c4cfab5b2e911b01e6fea31"));
}
