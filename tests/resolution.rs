use system_tz::{as_tz, key_text, tz_from_config, tz_from_path, unix_tz, web_tz, windows_tz, UnixSources};

fn empty_sources() -> UnixSources {
    UnixSources {
        tz_var: None,
        etc_timezone: None,
        var_db_zoneinfo: None,
        localtime_target: None,
        local_localtime_target: None,
        sysconfig_clock: None,
        conf_d_clock: None,
        default_init: None,
        local_default_init: None,
    }
}

fn utf16(s: &str) -> Vec<u16> {
    s.encode_utf16().collect()
}

fn keys(list: &[&str]) -> Vec<Vec<char>> {
    list.iter().map(|k| k.chars().collect()).collect()
}

#[test]
fn environment_value_is_trimmed_and_case_folded() {
    let mut s = empty_sources();
    s.tz_var = Some(" eUROPE/pARIS ".to_string());
    assert_eq!(unix_tz(&s).unwrap().name(), "Europe/Paris");
    s.tz_var = Some(" Europe/Paris ".to_string());
    assert_eq!(unix_tz(&s).unwrap().name(), "Europe/Paris");
}

#[test]
fn nothing_found_without_sources() {
    assert!(unix_tz(&empty_sources()).is_none());
}

#[test]
fn unparsable_sources_are_skipped_in_order() {
    let mut s = empty_sources();
    s.tz_var = Some("not a zone".to_string());
    s.etc_timezone = Some("\n".to_string());
    s.var_db_zoneinfo = Some("Asia/Tokyo\n".to_string());
    s.localtime_target = Some("/usr/share/zoneinfo/America/New_York".to_string());
    assert_eq!(unix_tz(&s).unwrap().name(), "Asia/Tokyo");
    s.var_db_zoneinfo = None;
    assert_eq!(unix_tz(&s).unwrap().name(), "America/New_York");
    s.localtime_target = Some("/etc/zone".to_string());
    s.conf_d_clock = Some("TIMEZONE=\"x\"\n".to_string());
    s.default_init = Some("TZ=Australia/Sydney\n".to_string());
    assert_eq!(unix_tz(&s).unwrap().name(), "Australia/Sydney");
}

#[test]
fn link_target_suffix_is_read() {
    assert_eq!(
        tz_from_path("/usr/share/zoneinfo/Europe/Berlin").unwrap().name(),
        "Europe/Berlin"
    );
    assert_eq!(
        tz_from_path("/a/zoneinfo/b/zoneinfo/Europe/Berlin"),
        None
    );
    assert_eq!(tz_from_path("/usr/share/Europe/Berlin"), None);
}

#[test]
fn config_takes_first_keyed_line() {
    let k = keys(&["ZONE", "TIMEZONE"]);
    assert_eq!(
        tz_from_config("# clock\n  TIMEZONE=Asia/Tokyo\nZONE=Europe/Paris\n", &k)
            .unwrap()
            .name(),
        "Asia/Tokyo"
    );
    assert_eq!(tz_from_config("ZONE=bogus\nTIMEZONE=Asia/Tokyo\n", &k), None);
    assert_eq!(tz_from_config("ZONE\nTIMEZONE=Asia/Tokyo\n", &k), None);
    assert_eq!(
        tz_from_config("UTC=true\r\nZONE = europe/london\r\n", &k).unwrap().name(),
        "Europe/London"
    );
    let mut s = empty_sources();
    s.sysconfig_clock = Some("ZONE=America/Chicago\n".to_string());
    assert_eq!(unix_tz(&s).unwrap().name(), "America/Chicago");
}

#[test]
fn as_tz_reads_candidates() {
    assert_eq!(as_tz("\tutc\n").unwrap().name(), "UTC");
    assert_eq!(as_tz(""), None);
    assert_eq!(as_tz("Europe / Paris"), None);
}

#[test]
fn windows_calendar_zone_comes_first() {
    let key = utf16("Tokyo Standard Time\0");
    assert_eq!(
        windows_tz(Some("Europe/Berlin"), Some(&key)).unwrap().name(),
        "Europe/Berlin"
    );
    assert_eq!(windows_tz(Some("Tokyo"), Some(&key)).unwrap().name(), "Asia/Tokyo");
    assert_eq!(windows_tz(None, None), None);
}

#[test]
fn windows_key_name_is_looked_up() {
    let mut key = utf16("Romance Standard Time");
    key.resize(128, 0);
    assert_eq!(windows_tz(None, Some(&key)).unwrap().name(), "Europe/Paris");
    let mut key = utf16("US Mountain Standard Time\0Romance");
    key.resize(128, 0);
    assert_eq!(windows_tz(None, Some(&key)).unwrap().name(), "America/Phoenix");
    let key = utf16("Nowhere Standard Time");
    assert_eq!(windows_tz(None, Some(&key)), None);
}

#[test]
fn key_text_stops_at_nul() {
    let mut key = utf16("W. Europe Standard Time");
    key.push(0);
    key.extend(utf16("tail"));
    assert_eq!(key_text(&key), "W. Europe Standard Time");
    assert_eq!(key_text(&[0x48, 0xD800, 0x49]), "H\u{FFFD}I");
    assert_eq!(key_text(&[]), "");
}

#[test]
fn web_fields_in_order() {
    assert_eq!(web_tz(Some("long"), Some("Asia/Seoul")).unwrap().name(), "Asia/Seoul");
    assert_eq!(
        web_tz(Some("America/Lima"), Some("Asia/Seoul")).unwrap().name(),
        "America/Lima"
    );
    assert_eq!(web_tz(None, None), None);
}
