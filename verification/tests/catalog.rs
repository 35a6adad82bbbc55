use vcpu_types::CpuType;

const CANONICAL_NAMES: [&str; 13] = [
    "EPYC",
    "EPYC-v1",
    "EPYC-v2",
    "EPYC-IBPB",
    "EPYC-v3",
    "EPYC-v4",
    "EPYC-Rome",
    "EPYC-Rome-v1",
    "EPYC-Rome-v2",
    "EPYC-Rome-v3",
    "EPYC-Milan",
    "EPYC-Milan-v1",
    "EPYC-Milan-v2",
];

#[test]
fn round_trip_all_canonical_names() {
    for name in CANONICAL_NAMES {
        let parsed = CpuType::parse(name).expect("canonical name must parse");
        assert_eq!(parsed.display(), name);
    }
}

#[test]
fn parse_each_canonical_name_to_its_variant() {
    assert_eq!(CpuType::parse("EPYC").unwrap(), CpuType::Epyc);
    assert_eq!(CpuType::parse("EPYC-v1").unwrap(), CpuType::EpycV1);
    assert_eq!(CpuType::parse("EPYC-v2").unwrap(), CpuType::EpycV2);
    assert_eq!(CpuType::parse("EPYC-IBPB").unwrap(), CpuType::EpycIBPB);
    assert_eq!(CpuType::parse("EPYC-v3").unwrap(), CpuType::EpycV3);
    assert_eq!(CpuType::parse("EPYC-v4").unwrap(), CpuType::EpycV4);
    assert_eq!(CpuType::parse("EPYC-Rome").unwrap(), CpuType::EpycRome);
    assert_eq!(CpuType::parse("EPYC-Rome-v1").unwrap(), CpuType::EpycRomeV1);
    assert_eq!(CpuType::parse("EPYC-Rome-v2").unwrap(), CpuType::EpycRomeV2);
    assert_eq!(CpuType::parse("EPYC-Rome-v3").unwrap(), CpuType::EpycRomeV3);
    assert_eq!(CpuType::parse("EPYC-Milan").unwrap(), CpuType::EpycMilan);
    assert_eq!(CpuType::parse("EPYC-Milan-v1").unwrap(), CpuType::EpycMilanV1);
    assert_eq!(CpuType::parse("EPYC-Milan-v2").unwrap(), CpuType::EpycMilanV2);
}

#[test]
fn parse_rejects_strings_outside_the_catalog() {
    for bad in [
        "EPYC-v5",
        "",
        "epyc",
        "Epyc",
        "EPYC-ROME",
        " EPYC",
        "EPYC ",
        "EPYC-Milan-v3",
        "EPYC-Rome-v0",
        "EPYC\n",
    ] {
        let err = CpuType::parse(bad).expect_err("non-canonical name must be rejected");
        assert_eq!(err.name, bad);
    }
}

#[test]
fn error_carries_the_offending_string() {
    let err = CpuType::parse("Milan").unwrap_err();
    assert_eq!(err.name, "Milan");
}

#[test]
fn alias_groups_share_one_signature() {
    let epyc = CpuType::Epyc.sig();
    for alias in ["EPYC-v1", "EPYC-v2", "EPYC-IBPB", "EPYC-v3", "EPYC-v4"] {
        assert_eq!(CpuType::parse(alias).unwrap().sig(), epyc);
    }

    let rome = CpuType::EpycRome.sig();
    for alias in ["EPYC-Rome-v1", "EPYC-Rome-v2", "EPYC-Rome-v3"] {
        assert_eq!(CpuType::parse(alias).unwrap().sig(), rome);
    }

    let milan = CpuType::EpycMilan.sig();
    for alias in ["EPYC-Milan-v1", "EPYC-Milan-v2"] {
        assert_eq!(CpuType::parse(alias).unwrap().sig(), milan);
    }
}

#[test]
fn exact_signature_values() {
    assert_eq!(CpuType::Epyc.sig(), 0x00800F12);
    assert_eq!(CpuType::EpycRome.sig(), 0x00830F10);
    assert_eq!(CpuType::EpycMilan.sig(), 0x00A00F11);
    assert_eq!(CpuType::parse("EPYC").unwrap().sig(), 0x00800F12);
    assert_eq!(CpuType::parse("EPYC-Rome").unwrap().sig(), 0x00830F10);
    assert_eq!(CpuType::parse("EPYC-Milan").unwrap().sig(), 0x00A00F11);
}

#[test]
fn sig_is_deterministic() {
    for name in CANONICAL_NAMES {
        let identity = CpuType::parse(name).unwrap();
        assert_eq!(identity.sig(), identity.sig());
    }
}

#[test]
fn display_returns_the_exact_canonical_name() {
    assert_eq!(CpuType::Epyc.display(), "EPYC");
    assert_eq!(CpuType::EpycIBPB.display(), "EPYC-IBPB");
    assert_eq!(CpuType::EpycRomeV3.display(), "EPYC-Rome-v3");
    assert_eq!(CpuType::EpycMilanV2.display(), "EPYC-Milan-v2");
}
