use std::sync::Arc;

use sqlx_core::{eq_ignore_ascii_case, Oid, PgCustomType, PgType, PgTypeInfo, PgTypeKind};

/// Every built-in type of the catalog: OID, catalog name, display name.
fn catalog() -> Vec<(u32, PgType, &'static str, &'static str)> {
    vec![
        (16, PgType::Bool, "bool", "BOOL"),
        (17, PgType::Bytea, "bytea", "BYTEA"),
        (18, PgType::Char, "char", "\"CHAR\""),
        (19, PgType::Name, "name", "NAME"),
        (20, PgType::Int8, "int8", "INT8"),
        (21, PgType::Int2, "int2", "INT2"),
        (23, PgType::Int4, "int4", "INT4"),
        (25, PgType::Text, "text", "TEXT"),
        (26, PgType::Oid, "oid", "OID"),
        (114, PgType::Json, "json", "JSON"),
        (199, PgType::JsonArray, "_json", "JSON[]"),
        (600, PgType::Point, "point", "POINT"),
        (601, PgType::Lseg, "lseg", "LSEG"),
        (602, PgType::Path, "path", "PATH"),
        (603, PgType::Box, "box", "BOX"),
        (604, PgType::Polygon, "polygon", "POLYGON"),
        (628, PgType::Line, "line", "LINE"),
        (629, PgType::LineArray, "_line", "LINE[]"),
        (650, PgType::Cidr, "cidr", "CIDR"),
        (651, PgType::CidrArray, "_cidr", "CIDR[]"),
        (700, PgType::Float4, "float4", "FLOAT4"),
        (701, PgType::Float8, "float8", "FLOAT8"),
        (705, PgType::Unknown, "unknown", "UNKNOWN"),
        (718, PgType::Circle, "circle", "CIRCLE"),
        (719, PgType::CircleArray, "_circle", "CIRCLE[]"),
        (774, PgType::Macaddr8, "macaddr8", "MACADDR8"),
        (775, PgType::Macaddr8Array, "_macaddr8", "MACADDR8[]"),
        (829, PgType::Macaddr, "macaddr", "MACADDR"),
        (869, PgType::Inet, "inet", "INET"),
        (1000, PgType::BoolArray, "_bool", "BOOL[]"),
        (1001, PgType::ByteaArray, "_bytea", "BYTEA[]"),
        (1002, PgType::CharArray, "_char", "\"CHAR\"[]"),
        (1003, PgType::NameArray, "_name", "NAME[]"),
        (1005, PgType::Int2Array, "_int2", "INT2[]"),
        (1007, PgType::Int4Array, "_int4", "INT4[]"),
        (1009, PgType::TextArray, "_text", "TEXT[]"),
        (1014, PgType::BpcharArray, "_bpchar", "CHAR[]"),
        (1015, PgType::VarcharArray, "_varchar", "VARCHAR[]"),
        (1016, PgType::Int8Array, "_int8", "INT8[]"),
        (1017, PgType::PointArray, "_point", "POINT[]"),
        (1018, PgType::LsegArray, "_lseg", "LSEG[]"),
        (1019, PgType::PathArray, "_path", "PATH[]"),
        (1020, PgType::BoxArray, "_box", "BOX[]"),
        (1021, PgType::Float4Array, "_float4", "FLOAT4[]"),
        (1022, PgType::Float8Array, "_float8", "FLOAT8[]"),
        (1027, PgType::PolygonArray, "_polygon", "POLYGON[]"),
        (1028, PgType::OidArray, "_oid", "OID[]"),
        (1040, PgType::MacaddrArray, "_macaddr", "MACADDR[]"),
        (1041, PgType::InetArray, "_inet", "INET[]"),
        (1042, PgType::Bpchar, "bpchar", "CHAR"),
        (1043, PgType::Varchar, "varchar", "VARCHAR"),
        (1082, PgType::Date, "date", "DATE"),
        (1083, PgType::Time, "time", "TIME"),
        (1114, PgType::Timestamp, "timestamp", "TIMESTAMP"),
        (1115, PgType::TimestampArray, "_timestamp", "TIMESTAMP[]"),
        (1182, PgType::DateArray, "_date", "DATE[]"),
        (1183, PgType::TimeArray, "_time", "TIME[]"),
        (1184, PgType::Timestamptz, "timestamptz", "TIMESTAMPTZ"),
        (1185, PgType::TimestamptzArray, "_timestamptz", "TIMESTAMPTZ[]"),
        (1186, PgType::Interval, "interval", "INTERVAL"),
        (1187, PgType::IntervalArray, "_interval", "INTERVAL[]"),
        (1231, PgType::NumericArray, "_numeric", "NUMERIC[]"),
        (1266, PgType::Timetz, "timetz", "TIMETZ"),
        (1270, PgType::TimetzArray, "_timetz", "TIMETZ[]"),
        (1560, PgType::Bit, "bit", "BIT"),
        (1561, PgType::BitArray, "_bit", "BIT[]"),
        (1562, PgType::Varbit, "varbit", "VARBIT"),
        (1563, PgType::VarbitArray, "_varbit", "VARBIT[]"),
        (1700, PgType::Numeric, "numeric", "NUMERIC"),
        (2249, PgType::Record, "record", "RECORD"),
        (2287, PgType::RecordArray, "_record", "RECORD[]"),
        (2950, PgType::Uuid, "uuid", "UUID"),
        (2951, PgType::UuidArray, "_uuid", "UUID[]"),
        (3802, PgType::Jsonb, "jsonb", "JSONB"),
        (3807, PgType::JsonbArray, "_jsonb", "JSONB[]"),
        (3904, PgType::Int4Range, "int4range", "INT4RANGE"),
        (3905, PgType::Int4RangeArray, "_int4range", "INT4RANGE[]"),
        (3906, PgType::NumRange, "numrange", "NUMRANGE"),
        (3907, PgType::NumRangeArray, "_numrange", "NUMRANGE[]"),
        (3908, PgType::TsRange, "tsrange", "TSRANGE"),
        (3909, PgType::TsRangeArray, "_tsrange", "TSRANGE[]"),
        (3910, PgType::TstzRange, "tstzrange", "TSTZRANGE"),
        (3911, PgType::TstzRangeArray, "_tstzrange", "TSTZRANGE[]"),
        (3912, PgType::DateRange, "daterange", "DATERANGE"),
        (3913, PgType::DateRangeArray, "_daterange", "DATERANGE[]"),
        (3926, PgType::Int8Range, "int8range", "INT8RANGE"),
        (3927, PgType::Int8RangeArray, "_int8range", "INT8RANGE[]"),
        (4072, PgType::Jsonpath, "jsonpath", "JSONPATH"),
        (4073, PgType::JsonpathArray, "_jsonpath", "JSONPATH[]"),
        (790, PgType::Money, "money", "MONEY"),
        (791, PgType::MoneyArray, "_money", "MONEY[]"),
        (2278, PgType::Void, "void", "VOID"),
    ]
}

fn custom(oid: u32, name: &str, kind: PgTypeKind) -> PgTypeInfo {
    PgTypeInfo(PgType::Custom(Arc::new(PgCustomType {
        oid: Oid(oid),
        name: name.to_string(),
        kind,
    })))
}

#[test]
fn every_builtin_oid_round_trips() {
    let entries = catalog();
    assert_eq!(entries.len(), 92);
    for (oid, ty, name, display) in entries {
        let info = PgTypeInfo::try_from_oid(Oid(oid)).expect("built-in OID");
        assert!(std::mem::discriminant(&info.0) == std::mem::discriminant(&ty));
        assert_eq!(info.0.try_oid(), Some(Oid(oid)));
        assert_eq!(info.0.oid(), Oid::new(oid));
        assert_eq!(info.0.name(), name);
        assert_eq!(info.0.display_name(), display);
        assert_eq!(info.name(), display);
        assert_eq!(info.to_string(), display.to_string());
        assert_eq!(PgType::try_from_oid(Oid(oid)).map(|t| t.oid()), Some(Oid(oid)));
    }
}

#[test]
fn unknown_oids_are_not_builtin() {
    for oid in [0u32, 1, 15, 22, 24, 27, 113, 1004, 1006, 2277, 4074, 16384, u32::MAX] {
        assert!(PgTypeInfo::try_from_oid(Oid(oid)).is_none());
        assert!(PgType::try_from_oid(Oid(oid)).is_none());
    }
}

#[test]
fn every_oid_below_5000_is_found_exactly_when_listed() {
    let listed: Vec<u32> = catalog().iter().map(|e| e.0).collect();
    for oid in 0u32..5000 {
        assert_eq!(PgType::try_from_oid(Oid(oid)).is_some(), listed.contains(&oid));
    }
}

#[test]
fn kinds_of_builtins() {
    assert!(matches!(PgTypeInfo(PgType::Bool).kind(), PgTypeKind::Simple));
    assert!(matches!(PgTypeInfo(PgType::Void).kind(), PgTypeKind::Pseudo));
    match PgTypeInfo(PgType::JsonArray).kind() {
        PgTypeKind::Array(elem) => assert!(matches!(elem.0, PgType::Json)),
        other => panic!("unexpected kind {:?}", other),
    }
    match PgTypeInfo(PgType::Int4RangeArray).kind() {
        PgTypeKind::Array(elem) => assert!(matches!(elem.0, PgType::Int4Range)),
        other => panic!("unexpected kind {:?}", other),
    }
    let ranges = [
        (PgType::Int4Range, PgType::Int4),
        (PgType::NumRange, PgType::Numeric),
        (PgType::TsRange, PgType::Timestamp),
        (PgType::TstzRange, PgType::Timestamptz),
        (PgType::DateRange, PgType::Date),
        (PgType::Int8Range, PgType::Int8),
    ];
    for (range, elem) in ranges {
        match range.kind() {
            PgTypeKind::Range(e) => assert_eq!(e.0.oid(), elem.oid()),
            other => panic!("unexpected kind {:?}", other),
        }
    }
}

#[test]
fn arrays_are_named_after_their_elements() {
    let mut arrays = 0;
    for (_, ty, name, display) in catalog() {
        if let PgTypeKind::Array(elem) = ty.kind() {
            arrays += 1;
            assert_eq!(name, format!("_{}", elem.0.name()));
            assert_eq!(display, format!("{}[]", elem.0.display_name()));
            assert!(!matches!(elem.0.kind(), PgTypeKind::Array(_)));
        }
    }
    assert_eq!(arrays, 45);
}

#[test]
fn builtin_oids_are_distinct() {
    let entries = catalog();
    for (i, a) in entries.iter().enumerate() {
        for (j, b) in entries.iter().enumerate() {
            assert_eq!(i == j, a.0 == b.0);
            assert_eq!(i == j, a.1 == b.1);
        }
    }
}

#[test]
fn custom_types_carry_their_own_oid_name_and_kind() {
    let mood = custom(16500, "mood", PgTypeKind::Enum(Arc::from(vec!["sad".to_string(), "ok".to_string()])));
    assert_eq!(mood.0.oid(), Oid(16500));
    assert_eq!(mood.0.try_oid(), Some(Oid(16500)));
    assert_eq!(mood.0.name(), "mood");
    assert_eq!(mood.name(), "mood");
    match mood.kind() {
        PgTypeKind::Enum(labels) => assert_eq!(labels.len(), 2),
        other => panic!("unexpected kind {:?}", other),
    }
    let point = custom(
        16600,
        "complex",
        PgTypeKind::Composite(Arc::from(vec![
            ("re".to_string(), PgTypeInfo(PgType::Float8)),
            ("im".to_string(), PgTypeInfo(PgType::Float8)),
        ])),
    );
    assert!(matches!(point.kind(), PgTypeKind::Composite(fields) if fields.len() == 2));
    let domain = custom(16700, "posint", PgTypeKind::Domain(PgTypeInfo(PgType::Int4)));
    assert!(matches!(domain.kind(), PgTypeKind::Domain(base) if base.0 == PgType::Int4));
}

#[test]
fn declarations() {
    let named = PgTypeInfo::with_name("citext");
    assert!(matches!(&named.0, PgType::DeclareWithName(n) if n == "citext"));
    assert_eq!(named.0.try_oid(), None);
    assert_eq!(named.0.name(), "citext");
    assert_eq!(named.name(), "citext");

    let by_oid = PgTypeInfo::with_oid(Oid(77777));
    assert!(matches!(by_oid.0, PgType::DeclareWithOid(Oid(77777))));
    assert_eq!(by_oid.0.try_oid(), Some(Oid(77777)));
    assert_eq!(by_oid.0.oid(), Oid(77777));
    assert_eq!(by_oid.0.name(), "?");
    assert_eq!(by_oid.0.display_name(), "?");
}

#[test]
fn equality_goes_by_oid_where_both_have_one() {
    assert!(PgTypeInfo(PgType::Int4) == PgTypeInfo(PgType::Int4));
    assert!(PgTypeInfo(PgType::Int4) != PgTypeInfo(PgType::Int8));
    assert!(PgTypeInfo(PgType::Int4) == PgTypeInfo::with_oid(Oid(23)));
    assert!(PgTypeInfo::with_oid(Oid(23)) != PgTypeInfo(PgType::Text));
    // a custom type named like a built-in one is still told apart by its OID
    assert!(custom(16500, "int4", PgTypeKind::Simple) != PgTypeInfo(PgType::Int4));
    assert!(custom(23, "whatever", PgTypeKind::Simple) == PgTypeInfo(PgType::Int4));
}

#[test]
fn name_and_oid_declarations_always_match() {
    assert!(PgTypeInfo::with_name("anything") == PgTypeInfo::with_oid(Oid(1)));
    assert!(PgTypeInfo::with_oid(Oid(1)) == PgTypeInfo::with_name("anything"));
}

#[test]
fn names_match_ignoring_ascii_case() {
    assert!(PgTypeInfo::with_name("DATE") == PgTypeInfo(PgType::Date));
    assert!(PgTypeInfo(PgType::Date) == PgTypeInfo::with_name("date"));
    assert!(PgTypeInfo::with_name("_Int4") == PgTypeInfo(PgType::Int4Array));
    assert!(PgTypeInfo::with_name("int4[]") != PgTypeInfo(PgType::Int4Array));
    assert!(PgTypeInfo::with_name("Citext") == PgTypeInfo::with_name("cITEXT"));
    assert!(PgTypeInfo::with_name("citext") != PgTypeInfo::with_name("citext2"));
    assert!(PgTypeInfo::with_name("mood") == custom(16500, "MOOD", PgTypeKind::Simple));
}

#[test]
fn ascii_case_insensitive_comparison() {
    assert!(eq_ignore_ascii_case("", ""));
    assert!(eq_ignore_ascii_case("Hello", "hELLO"));
    assert!(!eq_ignore_ascii_case("Hello", "Hell"));
    assert!(!eq_ignore_ascii_case("É", "é"));
    assert!(eq_ignore_ascii_case("Ünïcödé", "üNïCöDé") == false);
    assert!(eq_ignore_ascii_case("straße", "STRAßE"));
    assert!(!eq_ignore_ascii_case("@", "`"));
    assert!(!eq_ignore_ascii_case("[", "{"));
    for (a, b) in [("Z", "z"), ("a", "A"), ("0", "0"), ("_", "_")] {
        assert_eq!(eq_ignore_ascii_case(a, b), a.eq_ignore_ascii_case(b));
    }
}

#[test]
fn custom_types_compare_by_oid() {
    let a = PgCustomType { oid: Oid(9), name: "a".to_string(), kind: PgTypeKind::Simple };
    let b = PgCustomType { oid: Oid(9), name: "b".to_string(), kind: PgTypeKind::Pseudo };
    let c = PgCustomType { oid: Oid(10), name: "a".to_string(), kind: PgTypeKind::Simple };
    assert!(a == b);
    assert!(a != c);
}

#[test]
fn feature_gates_of_builtin_types() {
    let gate = |t: PgType| PgTypeInfo(t).__type_feature_gate();
    for t in [
        PgType::Date,
        PgType::Time,
        PgType::Timestamp,
        PgType::Timestamptz,
        PgType::DateArray,
        PgType::TimeArray,
        PgType::TimestampArray,
        PgType::TimestamptzArray,
    ] {
        assert_eq!(gate(t), Some("time"));
    }
    assert_eq!(gate(PgType::Uuid), Some("uuid"));
    assert_eq!(gate(PgType::UuidArray), Some("uuid"));
    for t in [PgType::Json, PgType::Jsonb, PgType::JsonArray, PgType::JsonbArray] {
        assert_eq!(gate(t), Some("json"));
    }
    for t in [PgType::Cidr, PgType::Inet, PgType::CidrArray, PgType::InetArray] {
        assert_eq!(gate(t), Some("ipnetwork"));
    }
    assert_eq!(gate(PgType::Macaddr), Some("mac_address"));
    assert_eq!(gate(PgType::MacaddrArray), None);
    assert_eq!(gate(PgType::Numeric), Some("bigdecimal"));
    assert_eq!(gate(PgType::NumericArray), Some("bigdecimal"));
    for t in [PgType::Bool, PgType::Int4, PgType::Timetz, PgType::Interval, PgType::Jsonpath, PgType::Void] {
        assert_eq!(gate(t), None);
    }
}

#[test]
fn feature_gates_of_declared_and_custom_types() {
    assert_eq!(PgTypeInfo::with_name("TIMESTAMPTZ").__type_feature_gate(), Some("time"));
    assert_eq!(PgTypeInfo::with_name("_uuid").__type_feature_gate(), Some("uuid"));
    assert_eq!(PgTypeInfo::with_oid(Oid(3802)).__type_feature_gate(), Some("json"));
    assert_eq!(PgTypeInfo::with_oid(Oid(5)).__type_feature_gate(), None);
    assert_eq!(PgTypeInfo::with_name("citext").__type_feature_gate(), None);
    assert_eq!(custom(869, "inet", PgTypeKind::Simple).__type_feature_gate(), Some("ipnetwork"));
    assert_eq!(custom(16500, "numeric", PgTypeKind::Simple).__type_feature_gate(), None);
}

#[test]
fn void_and_null() {
    assert!(PgTypeInfo(PgType::Void).is_void());
    assert!(!PgTypeInfo(PgType::Bool).is_void());
    assert!(!PgTypeInfo::with_name("void").is_void());
    assert!(!PgTypeInfo(PgType::Void).is_null());
    assert!(!PgTypeInfo::with_oid(Oid(0)).is_null());
}

#[test]
fn equality_is_reflexive_and_symmetric_on_samples() {
    let samples = vec![
        PgTypeInfo(PgType::Int4),
        PgTypeInfo(PgType::Text),
        PgTypeInfo::with_name("TEXT"),
        PgTypeInfo::with_name("citext"),
        PgTypeInfo::with_oid(Oid(25)),
        PgTypeInfo::with_oid(Oid(99999)),
        custom(25, "text", PgTypeKind::Simple),
        custom(16500, "Citext", PgTypeKind::Simple),
    ];
    for a in &samples {
        assert!(a == a);
        for b in &samples {
            assert_eq!(a == b, b == a);
        }
    }
}

#[test]
fn deref_reaches_the_type() {
    let info = PgTypeInfo(PgType::Bpchar);
    assert_eq!((*info).name(), "bpchar");
    assert_eq!(info.display_name(), "CHAR");
    assert_eq!(info.try_oid(), Some(Oid(1042)));
}

#[test]
fn builtin_kinds_are_simple_pseudo_array_or_range() {
    for (_, ty, _, _) in catalog() {
        match ty.kind() {
            PgTypeKind::Simple => {}
            PgTypeKind::Pseudo => assert!(matches!(ty, PgType::Void)),
            PgTypeKind::Array(elem) => {
                assert!(elem.0.try_oid().is_some());
                assert!(!matches!(elem.0.kind(), PgTypeKind::Array(_)));
            }
            PgTypeKind::Range(elem) => assert!(matches!(elem.0.kind(), PgTypeKind::Simple)),
            other => panic!("unexpected kind {:?}", other),
        }
    }
}

#[test]
fn ascii_comparison_agrees_with_std() {
    let words = [
        "", "a", "A", "ab", "aB", "Ab", "AB", "abc", "z", "Z", "[", "{", "@", "`", "é", "É",
        "ß", "SS", "ss", "İ", "i", "ı", "I", "Ω", "ω", "日本", "日本語", "mood", "MOOD", "m0od",
    ];
    for a in words {
        for b in words {
            assert_eq!(eq_ignore_ascii_case(a, b), a.eq_ignore_ascii_case(b), "{:?} {:?}", a, b);
        }
    }
}


#[test]
fn builtin_names_are_distinct() {
    let entries = catalog();
    for (i, a) in entries.iter().enumerate() {
        for (j, b) in entries.iter().enumerate() {
            if i != j {
                assert_ne!(a.1.display_name(), b.1.display_name());
                assert!(!eq_ignore_ascii_case(a.1.display_name(), b.1.display_name()));
                assert!(!eq_ignore_ascii_case(a.1.name(), b.1.name()));
            }
        }
    }
}

#[test]
fn a_named_declaration_matches_one_builtin() {
    for (_, ty, name, _) in catalog() {
        let declared = PgType::DeclareWithName(name.to_uppercase());
        let matches: Vec<u32> = catalog()
            .into_iter()
            .filter(|(_, other, _, _)| declared == *other)
            .map(|(oid, _, _, _)| oid)
            .collect();
        assert_eq!(matches, vec![ty.oid().as_u32()]);
    }
}
