use system_tz::{DatasetError, Error, IanaTz, WindowsTz, WindowsZones};

fn tz(name: &str) -> IanaTz {
    IanaTz::from_name(name).expect("a name of the timezone database")
}

#[test]
fn is_handles_windows_tz() {
    let missing_windows_tz =
        "Timezone doesn't exist in latest version of `WindowsZones` CLDR dataset";

    assert_eq!(
        WindowsTz::get("US Mountain Standard Time", Some("CA"))
            .expect(missing_windows_tz)
            .to_iana()
            .unwrap()
            .name(),
        chrono_tz::America::Creston.name()
    );

    assert_eq!(
        WindowsTz::get("US Mountain Standard Time", None)
            .expect(missing_windows_tz)
            .to_iana()
            .unwrap()
            .name(),
        chrono_tz::America::Phoenix.name()
    );

    assert_eq!(
        WindowsTz::from_iana(&tz(chrono_tz::Europe::Vienna.name())).ok(),
        WindowsTz::get("W. Europe Standard Time", Some("AT"))
    );

    let case = tz(chrono_tz::Europe::Paris.name());
    let windows = WindowsTz::from_iana(&case).expect(missing_windows_tz);
    assert_eq!(case, windows.to_iana().unwrap());
}

#[test]
fn territory_filter_is_exact() {
    assert!(WindowsTz::get("US Mountain Standard Time", Some("FR")).is_none());
    assert!(WindowsTz::get("US Mountain Standard Time", None).is_some());
    let row = WindowsTz::get("US Mountain Standard Time", Some("MX")).unwrap();
    assert_eq!(row.zone(), "US Mountain Standard Time");
    assert_eq!(row.territory(), Some("MX"));
    assert_eq!(row.iana_at(0), "America/Hermosillo");
}

#[test]
fn lookup_without_territory_is_stable() {
    let first = WindowsTz::get("Romance Standard Time", None).unwrap();
    let _ = WindowsTz::get("Romance Standard Time", Some("ES"));
    let again = WindowsTz::get("Romance Standard Time", None).unwrap();
    assert_eq!(first, again);
    assert_eq!(first.territory(), Some("001"));
    assert_eq!(first.to_iana().unwrap().name(), "Europe/Paris");
}

#[test]
fn unknown_names_are_absent() {
    assert!(WindowsTz::get("Nowhere Standard Time", None).is_none());
    assert!(WindowsTz::get("", None).is_none());
}

#[test]
fn reverse_lookup_of_unlisted_identifier_fails() {
    assert_eq!(WindowsTz::from_iana(&tz("Europe/Belfast")), Err(Error::UnknownTimezone));
    assert_eq!(WindowsTz::from_iana(&tz("America/Nuuk")), Err(Error::UnknownTimezone));
}

#[test]
fn round_trip_gives_first_candidate() {
    let row = WindowsTz::from_iana(&tz("Africa/Ceuta")).unwrap();
    assert_eq!(row.zone(), "Romance Standard Time");
    assert_eq!(row.territory(), Some("ES"));
    assert_eq!(row.to_iana().unwrap().name(), "Europe/Madrid");
    let row = WindowsTz::from_iana(&tz("Asia/Calcutta")).unwrap();
    assert_eq!(row.to_iana().unwrap().name(), "Asia/Calcutta");
}

#[test]
fn every_listed_identifier_round_trips_to_first_candidate() {
    let table = WindowsZones::bundled().unwrap();
    for i in 0..table.len() {
        let row = table.row(i);
        for j in 0..row.iana_len() {
            let name = row.iana_at(j);
            let found = WindowsTz::from_iana(&tz(name)).unwrap();
            assert!((0..found.iana_len()).any(|k| found.iana_at(k) == name));
            assert_eq!(found.to_iana().unwrap().name(), found.iana_at(0));
        }
    }
}

#[test]
fn utc_row_is_appended() {
    let row = WindowsTz::get("Coordinated Universal Time", None).unwrap();
    assert_eq!(row.territory(), None);
    assert_eq!(row.iana_len(), 1);
    assert_eq!(row.to_iana().unwrap().name(), "Etc/UTC");
    let table = WindowsZones::bundled().unwrap();
    let last = table.find("Coordinated Universal Time", None).unwrap();
    assert_eq!(last, row);
}

#[test]
fn shipped_table_metadata() {
    let (other, typ) = WindowsTz::version().unwrap();
    assert_eq!(other, "7e11800");
    assert_eq!(typ, "2021a");
    assert_eq!(WindowsTz::hash(), WindowsTz::hash());
    assert!(WindowsTz::hash().is_some());
    assert_eq!(WindowsTz::build_date(), None);
    let table = WindowsZones::bundled().unwrap();
    assert_eq!(table.len(), 507);
    assert_eq!(Some(table.hash()), WindowsTz::hash());
}

fn document(versions: (&str, &str), rows: &[(&str, Option<&str>, &str)]) -> String {
    let mut doc = String::from("<?xml version=\"1.0\" encoding=\"UTF-8\" ?>\n<supplementalData>\n<windowsZones>\n");
    doc.push_str(&format!(
        "<mapTimezones otherVersion=\"{}\" typeVersion=\"{}\">\n",
        versions.0, versions.1
    ));
    for (zone, territory, iana) in rows {
        match territory {
            Some(t) => doc.push_str(&format!(
                "\t<mapZone other=\"{zone}\" territory=\"{t}\" type=\"{iana}\"/>\n"
            )),
            None => doc.push_str(&format!("\t<mapZone other=\"{zone}\" type=\"{iana}\"/>\n")),
        }
    }
    doc.push_str("</mapTimezones>\n</windowsZones>\n</supplementalData>\n");
    doc
}

#[test]
fn parse_small_document() {
    let doc = document(
        ("v1", "v2"),
        &[
            ("Alpha Standard Time", Some("001"), "Europe/Paris"),
            ("Alpha Standard Time", Some("BE"), "Europe/Brussels Europe/Paris"),
            ("Beta Time", None, "Asia/Tokyo"),
        ],
    );
    let table = WindowsZones::parse(&doc).unwrap();
    assert_eq!(table.len(), 4);
    let (a, b) = table.version();
    assert_eq!((a.as_str(), b.as_str()), ("v1", "v2"));
    let be = table.find("Alpha Standard Time", Some("BE")).unwrap();
    assert_eq!(be.iana_len(), 2);
    assert_eq!(be.iana_at(1), "Europe/Paris");
    let beta = table.find("Beta Time", None).unwrap();
    assert_eq!(beta.territory(), None);
    assert!(table.find("Beta Time", Some("JP")).is_none());
    assert_eq!(table.find_iana("Europe/Paris").unwrap().territory(), Some("001"));
    assert_eq!(table.find_iana("Europe/Brussels").unwrap().territory(), Some("BE"));
    assert!(table.find_iana("Europe/Rome").is_none());
    assert_eq!(table.to_windows(&tz("Europe/Rome")), Err(Error::UnknownTimezone));
}

#[test]
fn parse_ignores_other_markup() {
    let doc = "<!-- mapZone other=\"X\" --><mapTimezones typeVersion=\"t\" otherVersion=\"o\">\
               <mapZone territory=\"GB\" type=\"Europe/London\" other=\"GMT Standard Time\"/>\
               <version number=\"1\"/></mapTimezones>";
    let table = WindowsZones::parse(doc).unwrap();
    assert_eq!(table.len(), 2);
    let (a, b) = table.version();
    assert_eq!((a.as_str(), b.as_str()), ("o", "t"));
    let row = table.find("GMT Standard Time", Some("GB")).unwrap();
    assert_eq!(row.iana_at(0), "Europe/London");
}

#[test]
fn parse_rejects_malformed_documents() {
    assert_eq!(WindowsZones::parse("").err(), Some(DatasetError::Malformed));
    assert_eq!(
        WindowsZones::parse("<windowsZones><mapZone other=\"A\" type=\"Europe/Paris\"/>").err(),
        Some(DatasetError::Malformed)
    );
    assert_eq!(
        WindowsZones::parse("<mapTimezones otherVersion=\"o\"><mapZone other=\"A\" type=\"Europe/Paris\"/>").err(),
        Some(DatasetError::Malformed)
    );
    let missing_type = "<mapTimezones otherVersion=\"o\" typeVersion=\"t\"><mapZone other=\"A\" territory=\"001\"/>";
    assert_eq!(WindowsZones::parse(missing_type).err(), Some(DatasetError::Malformed));
    let empty_name = document(("o", "t"), &[("", Some("001"), "Europe/Paris")]);
    assert_eq!(WindowsZones::parse(&empty_name).err(), Some(DatasetError::Malformed));
    let unclosed = "<mapTimezones otherVersion=\"o\" typeVersion=\"t\"><mapZone other=\"A\" type=\"Europe/Paris";
    assert_eq!(WindowsZones::parse(unclosed).err(), Some(DatasetError::Malformed));
}

#[test]
fn parse_rejects_unknown_identifiers() {
    let unknown = document(("o", "t"), &[("A", Some("001"), "Europe/Atlantis")]);
    assert_eq!(WindowsZones::parse(&unknown).err(), Some(DatasetError::UnknownZone));
    let lower = document(("o", "t"), &[("A", Some("001"), "europe/paris")]);
    assert_eq!(WindowsZones::parse(&lower).err(), Some(DatasetError::UnknownZone));
    let double_space = document(("o", "t"), &[("A", Some("001"), "Europe/Paris  Europe/Rome")]);
    assert_eq!(WindowsZones::parse(&double_space).err(), Some(DatasetError::UnknownZone));
}

#[test]
fn digest_is_stable_and_tracks_candidates() {
    let rows = [("Alpha", Some("001"), "Europe/Paris"), ("Beta", Some("001"), "Asia/Tokyo")];
    let changed = [("Alpha", Some("001"), "Europe/Rome"), ("Beta", Some("001"), "Asia/Tokyo")];
    let h1 = WindowsZones::parse(&document(("v1", "v2"), &rows)).unwrap().hash();
    let h2 = WindowsZones::parse(&document(("v1", "v2"), &rows)).unwrap().hash();
    let h3 = WindowsZones::parse(&document(("v1", "v2"), &changed)).unwrap().hash();
    let h4 = WindowsZones::parse(&document(("v1", "v3"), &rows)).unwrap().hash();
    assert_eq!(h1, h2);
    assert_ne!(h1, h3);
    assert_ne!(h1, h4);
}

#[test]
fn iana_names_are_validated() {
    assert!(IanaTz::from_name("Europe/Paris").is_some());
    assert!(IanaTz::from_name("europe/paris").is_none());
    assert!(IanaTz::from_name(" Europe/Paris").is_none());
    assert_eq!(
        IanaTz::from_name_insensitive("EUROPE/PARIS").unwrap().name(),
        "Europe/Paris"
    );
    assert!(IanaTz::from_name_insensitive("Mars/Olympus").is_none());
}
