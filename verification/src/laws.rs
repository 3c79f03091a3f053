use std::sync::Arc;
use vstd::prelude::*;

use crate::ascii::{ascii_fold, eq_ignore_ascii_case_spec};
use crate::catalog::{builtin_with_oid, is_builtin_oid};
use crate::oid::Oid;
use crate::type_info::{
    decimal_types, eq_any, feature_gate, json_types, mac_address_types, network_types,
    pg_type_eq, time_types, uuid_types, PgCustomType, PgType, PgTypeInfo, PgTypeKind,
};

verus! {

/// The catalog read backwards: the built-in type listed under each OID.
spec fn catalog_entry(oid: u32) -> Option<PgType> {
    match oid {
        16 => Some(PgType::Bool),
        17 => Some(PgType::Bytea),
        18 => Some(PgType::Char),
        19 => Some(PgType::Name),
        20 => Some(PgType::Int8),
        21 => Some(PgType::Int2),
        23 => Some(PgType::Int4),
        25 => Some(PgType::Text),
        26 => Some(PgType::Oid),
        114 => Some(PgType::Json),
        199 => Some(PgType::JsonArray),
        600 => Some(PgType::Point),
        601 => Some(PgType::Lseg),
        602 => Some(PgType::Path),
        603 => Some(PgType::Box),
        604 => Some(PgType::Polygon),
        628 => Some(PgType::Line),
        629 => Some(PgType::LineArray),
        650 => Some(PgType::Cidr),
        651 => Some(PgType::CidrArray),
        700 => Some(PgType::Float4),
        701 => Some(PgType::Float8),
        705 => Some(PgType::Unknown),
        718 => Some(PgType::Circle),
        719 => Some(PgType::CircleArray),
        774 => Some(PgType::Macaddr8),
        775 => Some(PgType::Macaddr8Array),
        790 => Some(PgType::Money),
        791 => Some(PgType::MoneyArray),
        829 => Some(PgType::Macaddr),
        869 => Some(PgType::Inet),
        1000 => Some(PgType::BoolArray),
        1001 => Some(PgType::ByteaArray),
        1002 => Some(PgType::CharArray),
        1003 => Some(PgType::NameArray),
        1005 => Some(PgType::Int2Array),
        1007 => Some(PgType::Int4Array),
        1009 => Some(PgType::TextArray),
        1014 => Some(PgType::BpcharArray),
        1015 => Some(PgType::VarcharArray),
        1016 => Some(PgType::Int8Array),
        1017 => Some(PgType::PointArray),
        1018 => Some(PgType::LsegArray),
        1019 => Some(PgType::PathArray),
        1020 => Some(PgType::BoxArray),
        1021 => Some(PgType::Float4Array),
        1022 => Some(PgType::Float8Array),
        1027 => Some(PgType::PolygonArray),
        1028 => Some(PgType::OidArray),
        1040 => Some(PgType::MacaddrArray),
        1041 => Some(PgType::InetArray),
        1042 => Some(PgType::Bpchar),
        1043 => Some(PgType::Varchar),
        1082 => Some(PgType::Date),
        1083 => Some(PgType::Time),
        1114 => Some(PgType::Timestamp),
        1115 => Some(PgType::TimestampArray),
        1182 => Some(PgType::DateArray),
        1183 => Some(PgType::TimeArray),
        1184 => Some(PgType::Timestamptz),
        1185 => Some(PgType::TimestamptzArray),
        1186 => Some(PgType::Interval),
        1187 => Some(PgType::IntervalArray),
        1231 => Some(PgType::NumericArray),
        1266 => Some(PgType::Timetz),
        1270 => Some(PgType::TimetzArray),
        1560 => Some(PgType::Bit),
        1561 => Some(PgType::BitArray),
        1562 => Some(PgType::Varbit),
        1563 => Some(PgType::VarbitArray),
        1700 => Some(PgType::Numeric),
        2249 => Some(PgType::Record),
        2278 => Some(PgType::Void),
        2287 => Some(PgType::RecordArray),
        2950 => Some(PgType::Uuid),
        2951 => Some(PgType::UuidArray),
        3802 => Some(PgType::Jsonb),
        3807 => Some(PgType::JsonbArray),
        3904 => Some(PgType::Int4Range),
        3905 => Some(PgType::Int4RangeArray),
        3906 => Some(PgType::NumRange),
        3907 => Some(PgType::NumRangeArray),
        3908 => Some(PgType::TsRange),
        3909 => Some(PgType::TsRangeArray),
        3910 => Some(PgType::TstzRange),
        3911 => Some(PgType::TstzRangeArray),
        3912 => Some(PgType::DateRange),
        3913 => Some(PgType::DateRangeArray),
        3926 => Some(PgType::Int8Range),
        3927 => Some(PgType::Int8RangeArray),
        4072 => Some(PgType::Jsonpath),
        4073 => Some(PgType::JsonpathArray),
        _ => None,
    }
}

/// Reading the catalog backwards under the OID of a built-in type gives that type back.
proof fn lemma_catalog_entry_of_builtin(t: PgType)
    requires
        t.is_builtin(),
    ensures
        t.spec_try_oid() is Some,
        catalog_entry(t.spec_try_oid().unwrap().0) == Some(t),
{
}

/// No two built-in types share an OID: every built-in type with the OID of `t` is `t`.
pub proof fn lemma_builtin_oids_distinct_all(t: PgType)
    requires
        t.is_builtin(),
    ensures
        forall|u: PgType|
            u.is_builtin() && #[trigger] u.spec_try_oid() == t.spec_try_oid() ==> u == t,
{
    lemma_catalog_entry_of_builtin(t);
    assert forall|u: PgType|
        u.is_builtin() && #[trigger] u.spec_try_oid() == t.spec_try_oid() implies u == t by {
        lemma_catalog_entry_of_builtin(u);
    }
}

/// The built-in type whose catalog name matches `s` ignoring ASCII case, read character by
/// character.
spec fn name_entry(s: Seq<char>) -> Option<PgType> {
    if s.len() == 4 && ascii_fold(s[0]) == 98 && ascii_fold(s[1]) == 111 && ascii_fold(s[2]) == 111 && ascii_fold(s[3]) == 108 {
        Some(PgType::Bool)
    } else if s.len() == 5 && ascii_fold(s[0]) == 98 && ascii_fold(s[1]) == 121 && ascii_fold(s[2]) == 116 && ascii_fold(s[3]) == 101 && ascii_fold(s[4]) == 97 {
        Some(PgType::Bytea)
    } else if s.len() == 4 && ascii_fold(s[0]) == 99 && ascii_fold(s[1]) == 104 && ascii_fold(s[2]) == 97 && ascii_fold(s[3]) == 114 {
        Some(PgType::Char)
    } else if s.len() == 4 && ascii_fold(s[0]) == 110 && ascii_fold(s[1]) == 97 && ascii_fold(s[2]) == 109 && ascii_fold(s[3]) == 101 {
        Some(PgType::Name)
    } else if s.len() == 4 && ascii_fold(s[0]) == 105 && ascii_fold(s[1]) == 110 && ascii_fold(s[2]) == 116 && ascii_fold(s[3]) == 56 {
        Some(PgType::Int8)
    } else if s.len() == 4 && ascii_fold(s[0]) == 105 && ascii_fold(s[1]) == 110 && ascii_fold(s[2]) == 116 && ascii_fold(s[3]) == 50 {
        Some(PgType::Int2)
    } else if s.len() == 4 && ascii_fold(s[0]) == 105 && ascii_fold(s[1]) == 110 && ascii_fold(s[2]) == 116 && ascii_fold(s[3]) == 52 {
        Some(PgType::Int4)
    } else if s.len() == 4 && ascii_fold(s[0]) == 116 && ascii_fold(s[1]) == 101 && ascii_fold(s[2]) == 120 && ascii_fold(s[3]) == 116 {
        Some(PgType::Text)
    } else if s.len() == 3 && ascii_fold(s[0]) == 111 && ascii_fold(s[1]) == 105 && ascii_fold(s[2]) == 100 {
        Some(PgType::Oid)
    } else if s.len() == 4 && ascii_fold(s[0]) == 106 && ascii_fold(s[1]) == 115 && ascii_fold(s[2]) == 111 && ascii_fold(s[3]) == 110 {
        Some(PgType::Json)
    } else if s.len() == 5 && ascii_fold(s[0]) == 95 && ascii_fold(s[1]) == 106 && ascii_fold(s[2]) == 115 && ascii_fold(s[3]) == 111 && ascii_fold(s[4]) == 110 {
        Some(PgType::JsonArray)
    } else if s.len() == 5 && ascii_fold(s[0]) == 112 && ascii_fold(s[1]) == 111 && ascii_fold(s[2]) == 105 && ascii_fold(s[3]) == 110 && ascii_fold(s[4]) == 116 {
        Some(PgType::Point)
    } else if s.len() == 4 && ascii_fold(s[0]) == 108 && ascii_fold(s[1]) == 115 && ascii_fold(s[2]) == 101 && ascii_fold(s[3]) == 103 {
        Some(PgType::Lseg)
    } else if s.len() == 4 && ascii_fold(s[0]) == 112 && ascii_fold(s[1]) == 97 && ascii_fold(s[2]) == 116 && ascii_fold(s[3]) == 104 {
        Some(PgType::Path)
    } else if s.len() == 3 && ascii_fold(s[0]) == 98 && ascii_fold(s[1]) == 111 && ascii_fold(s[2]) == 120 {
        Some(PgType::Box)
    } else if s.len() == 7 && ascii_fold(s[0]) == 112 && ascii_fold(s[1]) == 111 && ascii_fold(s[2]) == 108 && ascii_fold(s[3]) == 121 && ascii_fold(s[4]) == 103 && ascii_fold(s[5]) == 111 && ascii_fold(s[6]) == 110 {
        Some(PgType::Polygon)
    } else if s.len() == 4 && ascii_fold(s[0]) == 108 && ascii_fold(s[1]) == 105 && ascii_fold(s[2]) == 110 && ascii_fold(s[3]) == 101 {
        Some(PgType::Line)
    } else if s.len() == 5 && ascii_fold(s[0]) == 95 && ascii_fold(s[1]) == 108 && ascii_fold(s[2]) == 105 && ascii_fold(s[3]) == 110 && ascii_fold(s[4]) == 101 {
        Some(PgType::LineArray)
    } else if s.len() == 4 && ascii_fold(s[0]) == 99 && ascii_fold(s[1]) == 105 && ascii_fold(s[2]) == 100 && ascii_fold(s[3]) == 114 {
        Some(PgType::Cidr)
    } else if s.len() == 5 && ascii_fold(s[0]) == 95 && ascii_fold(s[1]) == 99 && ascii_fold(s[2]) == 105 && ascii_fold(s[3]) == 100 && ascii_fold(s[4]) == 114 {
        Some(PgType::CidrArray)
    } else if s.len() == 6 && ascii_fold(s[0]) == 102 && ascii_fold(s[1]) == 108 && ascii_fold(s[2]) == 111 && ascii_fold(s[3]) == 97 && ascii_fold(s[4]) == 116 && ascii_fold(s[5]) == 52 {
        Some(PgType::Float4)
    } else if s.len() == 6 && ascii_fold(s[0]) == 102 && ascii_fold(s[1]) == 108 && ascii_fold(s[2]) == 111 && ascii_fold(s[3]) == 97 && ascii_fold(s[4]) == 116 && ascii_fold(s[5]) == 56 {
        Some(PgType::Float8)
    } else if s.len() == 7 && ascii_fold(s[0]) == 117 && ascii_fold(s[1]) == 110 && ascii_fold(s[2]) == 107 && ascii_fold(s[3]) == 110 && ascii_fold(s[4]) == 111 && ascii_fold(s[5]) == 119 && ascii_fold(s[6]) == 110 {
        Some(PgType::Unknown)
    } else if s.len() == 6 && ascii_fold(s[0]) == 99 && ascii_fold(s[1]) == 105 && ascii_fold(s[2]) == 114 && ascii_fold(s[3]) == 99 && ascii_fold(s[4]) == 108 && ascii_fold(s[5]) == 101 {
        Some(PgType::Circle)
    } else if s.len() == 7 && ascii_fold(s[0]) == 95 && ascii_fold(s[1]) == 99 && ascii_fold(s[2]) == 105 && ascii_fold(s[3]) == 114 && ascii_fold(s[4]) == 99 && ascii_fold(s[5]) == 108 && ascii_fold(s[6]) == 101 {
        Some(PgType::CircleArray)
    } else if s.len() == 8 && ascii_fold(s[0]) == 109 && ascii_fold(s[1]) == 97 && ascii_fold(s[2]) == 99 && ascii_fold(s[3]) == 97 && ascii_fold(s[4]) == 100 && ascii_fold(s[5]) == 100 && ascii_fold(s[6]) == 114 && ascii_fold(s[7]) == 56 {
        Some(PgType::Macaddr8)
    } else if s.len() == 9 && ascii_fold(s[0]) == 95 && ascii_fold(s[1]) == 109 && ascii_fold(s[2]) == 97 && ascii_fold(s[3]) == 99 && ascii_fold(s[4]) == 97 && ascii_fold(s[5]) == 100 && ascii_fold(s[6]) == 100 && ascii_fold(s[7]) == 114 && ascii_fold(s[8]) == 56 {
        Some(PgType::Macaddr8Array)
    } else if s.len() == 7 && ascii_fold(s[0]) == 109 && ascii_fold(s[1]) == 97 && ascii_fold(s[2]) == 99 && ascii_fold(s[3]) == 97 && ascii_fold(s[4]) == 100 && ascii_fold(s[5]) == 100 && ascii_fold(s[6]) == 114 {
        Some(PgType::Macaddr)
    } else if s.len() == 4 && ascii_fold(s[0]) == 105 && ascii_fold(s[1]) == 110 && ascii_fold(s[2]) == 101 && ascii_fold(s[3]) == 116 {
        Some(PgType::Inet)
    } else if s.len() == 5 && ascii_fold(s[0]) == 95 && ascii_fold(s[1]) == 98 && ascii_fold(s[2]) == 111 && ascii_fold(s[3]) == 111 && ascii_fold(s[4]) == 108 {
        Some(PgType::BoolArray)
    } else if s.len() == 6 && ascii_fold(s[0]) == 95 && ascii_fold(s[1]) == 98 && ascii_fold(s[2]) == 121 && ascii_fold(s[3]) == 116 && ascii_fold(s[4]) == 101 && ascii_fold(s[5]) == 97 {
        Some(PgType::ByteaArray)
    } else if s.len() == 5 && ascii_fold(s[0]) == 95 && ascii_fold(s[1]) == 99 && ascii_fold(s[2]) == 104 && ascii_fold(s[3]) == 97 && ascii_fold(s[4]) == 114 {
        Some(PgType::CharArray)
    } else if s.len() == 5 && ascii_fold(s[0]) == 95 && ascii_fold(s[1]) == 110 && ascii_fold(s[2]) == 97 && ascii_fold(s[3]) == 109 && ascii_fold(s[4]) == 101 {
        Some(PgType::NameArray)
    } else if s.len() == 5 && ascii_fold(s[0]) == 95 && ascii_fold(s[1]) == 105 && ascii_fold(s[2]) == 110 && ascii_fold(s[3]) == 116 && ascii_fold(s[4]) == 50 {
        Some(PgType::Int2Array)
    } else if s.len() == 5 && ascii_fold(s[0]) == 95 && ascii_fold(s[1]) == 105 && ascii_fold(s[2]) == 110 && ascii_fold(s[3]) == 116 && ascii_fold(s[4]) == 52 {
        Some(PgType::Int4Array)
    } else if s.len() == 5 && ascii_fold(s[0]) == 95 && ascii_fold(s[1]) == 116 && ascii_fold(s[2]) == 101 && ascii_fold(s[3]) == 120 && ascii_fold(s[4]) == 116 {
        Some(PgType::TextArray)
    } else if s.len() == 7 && ascii_fold(s[0]) == 95 && ascii_fold(s[1]) == 98 && ascii_fold(s[2]) == 112 && ascii_fold(s[3]) == 99 && ascii_fold(s[4]) == 104 && ascii_fold(s[5]) == 97 && ascii_fold(s[6]) == 114 {
        Some(PgType::BpcharArray)
    } else if s.len() == 8 && ascii_fold(s[0]) == 95 && ascii_fold(s[1]) == 118 && ascii_fold(s[2]) == 97 && ascii_fold(s[3]) == 114 && ascii_fold(s[4]) == 99 && ascii_fold(s[5]) == 104 && ascii_fold(s[6]) == 97 && ascii_fold(s[7]) == 114 {
        Some(PgType::VarcharArray)
    } else if s.len() == 5 && ascii_fold(s[0]) == 95 && ascii_fold(s[1]) == 105 && ascii_fold(s[2]) == 110 && ascii_fold(s[3]) == 116 && ascii_fold(s[4]) == 56 {
        Some(PgType::Int8Array)
    } else if s.len() == 6 && ascii_fold(s[0]) == 95 && ascii_fold(s[1]) == 112 && ascii_fold(s[2]) == 111 && ascii_fold(s[3]) == 105 && ascii_fold(s[4]) == 110 && ascii_fold(s[5]) == 116 {
        Some(PgType::PointArray)
    } else if s.len() == 5 && ascii_fold(s[0]) == 95 && ascii_fold(s[1]) == 108 && ascii_fold(s[2]) == 115 && ascii_fold(s[3]) == 101 && ascii_fold(s[4]) == 103 {
        Some(PgType::LsegArray)
    } else if s.len() == 5 && ascii_fold(s[0]) == 95 && ascii_fold(s[1]) == 112 && ascii_fold(s[2]) == 97 && ascii_fold(s[3]) == 116 && ascii_fold(s[4]) == 104 {
        Some(PgType::PathArray)
    } else if s.len() == 4 && ascii_fold(s[0]) == 95 && ascii_fold(s[1]) == 98 && ascii_fold(s[2]) == 111 && ascii_fold(s[3]) == 120 {
        Some(PgType::BoxArray)
    } else if s.len() == 7 && ascii_fold(s[0]) == 95 && ascii_fold(s[1]) == 102 && ascii_fold(s[2]) == 108 && ascii_fold(s[3]) == 111 && ascii_fold(s[4]) == 97 && ascii_fold(s[5]) == 116 && ascii_fold(s[6]) == 52 {
        Some(PgType::Float4Array)
    } else if s.len() == 7 && ascii_fold(s[0]) == 95 && ascii_fold(s[1]) == 102 && ascii_fold(s[2]) == 108 && ascii_fold(s[3]) == 111 && ascii_fold(s[4]) == 97 && ascii_fold(s[5]) == 116 && ascii_fold(s[6]) == 56 {
        Some(PgType::Float8Array)
    } else if s.len() == 8 && ascii_fold(s[0]) == 95 && ascii_fold(s[1]) == 112 && ascii_fold(s[2]) == 111 && ascii_fold(s[3]) == 108 && ascii_fold(s[4]) == 121 && ascii_fold(s[5]) == 103 && ascii_fold(s[6]) == 111 && ascii_fold(s[7]) == 110 {
        Some(PgType::PolygonArray)
    } else if s.len() == 4 && ascii_fold(s[0]) == 95 && ascii_fold(s[1]) == 111 && ascii_fold(s[2]) == 105 && ascii_fold(s[3]) == 100 {
        Some(PgType::OidArray)
    } else if s.len() == 8 && ascii_fold(s[0]) == 95 && ascii_fold(s[1]) == 109 && ascii_fold(s[2]) == 97 && ascii_fold(s[3]) == 99 && ascii_fold(s[4]) == 97 && ascii_fold(s[5]) == 100 && ascii_fold(s[6]) == 100 && ascii_fold(s[7]) == 114 {
        Some(PgType::MacaddrArray)
    } else if s.len() == 5 && ascii_fold(s[0]) == 95 && ascii_fold(s[1]) == 105 && ascii_fold(s[2]) == 110 && ascii_fold(s[3]) == 101 && ascii_fold(s[4]) == 116 {
        Some(PgType::InetArray)
    } else if s.len() == 6 && ascii_fold(s[0]) == 98 && ascii_fold(s[1]) == 112 && ascii_fold(s[2]) == 99 && ascii_fold(s[3]) == 104 && ascii_fold(s[4]) == 97 && ascii_fold(s[5]) == 114 {
        Some(PgType::Bpchar)
    } else if s.len() == 7 && ascii_fold(s[0]) == 118 && ascii_fold(s[1]) == 97 && ascii_fold(s[2]) == 114 && ascii_fold(s[3]) == 99 && ascii_fold(s[4]) == 104 && ascii_fold(s[5]) == 97 && ascii_fold(s[6]) == 114 {
        Some(PgType::Varchar)
    } else if s.len() == 4 && ascii_fold(s[0]) == 100 && ascii_fold(s[1]) == 97 && ascii_fold(s[2]) == 116 && ascii_fold(s[3]) == 101 {
        Some(PgType::Date)
    } else if s.len() == 4 && ascii_fold(s[0]) == 116 && ascii_fold(s[1]) == 105 && ascii_fold(s[2]) == 109 && ascii_fold(s[3]) == 101 {
        Some(PgType::Time)
    } else if s.len() == 9 && ascii_fold(s[0]) == 116 && ascii_fold(s[1]) == 105 && ascii_fold(s[2]) == 109 && ascii_fold(s[3]) == 101 && ascii_fold(s[4]) == 115 && ascii_fold(s[5]) == 116 && ascii_fold(s[6]) == 97 && ascii_fold(s[7]) == 109 && ascii_fold(s[8]) == 112 {
        Some(PgType::Timestamp)
    } else if s.len() == 10 && ascii_fold(s[0]) == 95 && ascii_fold(s[1]) == 116 && ascii_fold(s[2]) == 105 && ascii_fold(s[3]) == 109 && ascii_fold(s[4]) == 101 && ascii_fold(s[5]) == 115 && ascii_fold(s[6]) == 116 && ascii_fold(s[7]) == 97 && ascii_fold(s[8]) == 109 && ascii_fold(s[9]) == 112 {
        Some(PgType::TimestampArray)
    } else if s.len() == 5 && ascii_fold(s[0]) == 95 && ascii_fold(s[1]) == 100 && ascii_fold(s[2]) == 97 && ascii_fold(s[3]) == 116 && ascii_fold(s[4]) == 101 {
        Some(PgType::DateArray)
    } else if s.len() == 5 && ascii_fold(s[0]) == 95 && ascii_fold(s[1]) == 116 && ascii_fold(s[2]) == 105 && ascii_fold(s[3]) == 109 && ascii_fold(s[4]) == 101 {
        Some(PgType::TimeArray)
    } else if s.len() == 11 && ascii_fold(s[0]) == 116 && ascii_fold(s[1]) == 105 && ascii_fold(s[2]) == 109 && ascii_fold(s[3]) == 101 && ascii_fold(s[4]) == 115 && ascii_fold(s[5]) == 116 && ascii_fold(s[6]) == 97 && ascii_fold(s[7]) == 109 && ascii_fold(s[8]) == 112 && ascii_fold(s[9]) == 116 && ascii_fold(s[10]) == 122 {
        Some(PgType::Timestamptz)
    } else if s.len() == 12 && ascii_fold(s[0]) == 95 && ascii_fold(s[1]) == 116 && ascii_fold(s[2]) == 105 && ascii_fold(s[3]) == 109 && ascii_fold(s[4]) == 101 && ascii_fold(s[5]) == 115 && ascii_fold(s[6]) == 116 && ascii_fold(s[7]) == 97 && ascii_fold(s[8]) == 109 && ascii_fold(s[9]) == 112 && ascii_fold(s[10]) == 116 && ascii_fold(s[11]) == 122 {
        Some(PgType::TimestamptzArray)
    } else if s.len() == 8 && ascii_fold(s[0]) == 105 && ascii_fold(s[1]) == 110 && ascii_fold(s[2]) == 116 && ascii_fold(s[3]) == 101 && ascii_fold(s[4]) == 114 && ascii_fold(s[5]) == 118 && ascii_fold(s[6]) == 97 && ascii_fold(s[7]) == 108 {
        Some(PgType::Interval)
    } else if s.len() == 9 && ascii_fold(s[0]) == 95 && ascii_fold(s[1]) == 105 && ascii_fold(s[2]) == 110 && ascii_fold(s[3]) == 116 && ascii_fold(s[4]) == 101 && ascii_fold(s[5]) == 114 && ascii_fold(s[6]) == 118 && ascii_fold(s[7]) == 97 && ascii_fold(s[8]) == 108 {
        Some(PgType::IntervalArray)
    } else if s.len() == 8 && ascii_fold(s[0]) == 95 && ascii_fold(s[1]) == 110 && ascii_fold(s[2]) == 117 && ascii_fold(s[3]) == 109 && ascii_fold(s[4]) == 101 && ascii_fold(s[5]) == 114 && ascii_fold(s[6]) == 105 && ascii_fold(s[7]) == 99 {
        Some(PgType::NumericArray)
    } else if s.len() == 6 && ascii_fold(s[0]) == 116 && ascii_fold(s[1]) == 105 && ascii_fold(s[2]) == 109 && ascii_fold(s[3]) == 101 && ascii_fold(s[4]) == 116 && ascii_fold(s[5]) == 122 {
        Some(PgType::Timetz)
    } else if s.len() == 7 && ascii_fold(s[0]) == 95 && ascii_fold(s[1]) == 116 && ascii_fold(s[2]) == 105 && ascii_fold(s[3]) == 109 && ascii_fold(s[4]) == 101 && ascii_fold(s[5]) == 116 && ascii_fold(s[6]) == 122 {
        Some(PgType::TimetzArray)
    } else if s.len() == 3 && ascii_fold(s[0]) == 98 && ascii_fold(s[1]) == 105 && ascii_fold(s[2]) == 116 {
        Some(PgType::Bit)
    } else if s.len() == 4 && ascii_fold(s[0]) == 95 && ascii_fold(s[1]) == 98 && ascii_fold(s[2]) == 105 && ascii_fold(s[3]) == 116 {
        Some(PgType::BitArray)
    } else if s.len() == 6 && ascii_fold(s[0]) == 118 && ascii_fold(s[1]) == 97 && ascii_fold(s[2]) == 114 && ascii_fold(s[3]) == 98 && ascii_fold(s[4]) == 105 && ascii_fold(s[5]) == 116 {
        Some(PgType::Varbit)
    } else if s.len() == 7 && ascii_fold(s[0]) == 95 && ascii_fold(s[1]) == 118 && ascii_fold(s[2]) == 97 && ascii_fold(s[3]) == 114 && ascii_fold(s[4]) == 98 && ascii_fold(s[5]) == 105 && ascii_fold(s[6]) == 116 {
        Some(PgType::VarbitArray)
    } else if s.len() == 7 && ascii_fold(s[0]) == 110 && ascii_fold(s[1]) == 117 && ascii_fold(s[2]) == 109 && ascii_fold(s[3]) == 101 && ascii_fold(s[4]) == 114 && ascii_fold(s[5]) == 105 && ascii_fold(s[6]) == 99 {
        Some(PgType::Numeric)
    } else if s.len() == 6 && ascii_fold(s[0]) == 114 && ascii_fold(s[1]) == 101 && ascii_fold(s[2]) == 99 && ascii_fold(s[3]) == 111 && ascii_fold(s[4]) == 114 && ascii_fold(s[5]) == 100 {
        Some(PgType::Record)
    } else if s.len() == 7 && ascii_fold(s[0]) == 95 && ascii_fold(s[1]) == 114 && ascii_fold(s[2]) == 101 && ascii_fold(s[3]) == 99 && ascii_fold(s[4]) == 111 && ascii_fold(s[5]) == 114 && ascii_fold(s[6]) == 100 {
        Some(PgType::RecordArray)
    } else if s.len() == 4 && ascii_fold(s[0]) == 117 && ascii_fold(s[1]) == 117 && ascii_fold(s[2]) == 105 && ascii_fold(s[3]) == 100 {
        Some(PgType::Uuid)
    } else if s.len() == 5 && ascii_fold(s[0]) == 95 && ascii_fold(s[1]) == 117 && ascii_fold(s[2]) == 117 && ascii_fold(s[3]) == 105 && ascii_fold(s[4]) == 100 {
        Some(PgType::UuidArray)
    } else if s.len() == 5 && ascii_fold(s[0]) == 106 && ascii_fold(s[1]) == 115 && ascii_fold(s[2]) == 111 && ascii_fold(s[3]) == 110 && ascii_fold(s[4]) == 98 {
        Some(PgType::Jsonb)
    } else if s.len() == 6 && ascii_fold(s[0]) == 95 && ascii_fold(s[1]) == 106 && ascii_fold(s[2]) == 115 && ascii_fold(s[3]) == 111 && ascii_fold(s[4]) == 110 && ascii_fold(s[5]) == 98 {
        Some(PgType::JsonbArray)
    } else if s.len() == 9 && ascii_fold(s[0]) == 105 && ascii_fold(s[1]) == 110 && ascii_fold(s[2]) == 116 && ascii_fold(s[3]) == 52 && ascii_fold(s[4]) == 114 && ascii_fold(s[5]) == 97 && ascii_fold(s[6]) == 110 && ascii_fold(s[7]) == 103 && ascii_fold(s[8]) == 101 {
        Some(PgType::Int4Range)
    } else if s.len() == 10 && ascii_fold(s[0]) == 95 && ascii_fold(s[1]) == 105 && ascii_fold(s[2]) == 110 && ascii_fold(s[3]) == 116 && ascii_fold(s[4]) == 52 && ascii_fold(s[5]) == 114 && ascii_fold(s[6]) == 97 && ascii_fold(s[7]) == 110 && ascii_fold(s[8]) == 103 && ascii_fold(s[9]) == 101 {
        Some(PgType::Int4RangeArray)
    } else if s.len() == 8 && ascii_fold(s[0]) == 110 && ascii_fold(s[1]) == 117 && ascii_fold(s[2]) == 109 && ascii_fold(s[3]) == 114 && ascii_fold(s[4]) == 97 && ascii_fold(s[5]) == 110 && ascii_fold(s[6]) == 103 && ascii_fold(s[7]) == 101 {
        Some(PgType::NumRange)
    } else if s.len() == 9 && ascii_fold(s[0]) == 95 && ascii_fold(s[1]) == 110 && ascii_fold(s[2]) == 117 && ascii_fold(s[3]) == 109 && ascii_fold(s[4]) == 114 && ascii_fold(s[5]) == 97 && ascii_fold(s[6]) == 110 && ascii_fold(s[7]) == 103 && ascii_fold(s[8]) == 101 {
        Some(PgType::NumRangeArray)
    } else if s.len() == 7 && ascii_fold(s[0]) == 116 && ascii_fold(s[1]) == 115 && ascii_fold(s[2]) == 114 && ascii_fold(s[3]) == 97 && ascii_fold(s[4]) == 110 && ascii_fold(s[5]) == 103 && ascii_fold(s[6]) == 101 {
        Some(PgType::TsRange)
    } else if s.len() == 8 && ascii_fold(s[0]) == 95 && ascii_fold(s[1]) == 116 && ascii_fold(s[2]) == 115 && ascii_fold(s[3]) == 114 && ascii_fold(s[4]) == 97 && ascii_fold(s[5]) == 110 && ascii_fold(s[6]) == 103 && ascii_fold(s[7]) == 101 {
        Some(PgType::TsRangeArray)
    } else if s.len() == 9 && ascii_fold(s[0]) == 116 && ascii_fold(s[1]) == 115 && ascii_fold(s[2]) == 116 && ascii_fold(s[3]) == 122 && ascii_fold(s[4]) == 114 && ascii_fold(s[5]) == 97 && ascii_fold(s[6]) == 110 && ascii_fold(s[7]) == 103 && ascii_fold(s[8]) == 101 {
        Some(PgType::TstzRange)
    } else if s.len() == 10 && ascii_fold(s[0]) == 95 && ascii_fold(s[1]) == 116 && ascii_fold(s[2]) == 115 && ascii_fold(s[3]) == 116 && ascii_fold(s[4]) == 122 && ascii_fold(s[5]) == 114 && ascii_fold(s[6]) == 97 && ascii_fold(s[7]) == 110 && ascii_fold(s[8]) == 103 && ascii_fold(s[9]) == 101 {
        Some(PgType::TstzRangeArray)
    } else if s.len() == 9 && ascii_fold(s[0]) == 100 && ascii_fold(s[1]) == 97 && ascii_fold(s[2]) == 116 && ascii_fold(s[3]) == 101 && ascii_fold(s[4]) == 114 && ascii_fold(s[5]) == 97 && ascii_fold(s[6]) == 110 && ascii_fold(s[7]) == 103 && ascii_fold(s[8]) == 101 {
        Some(PgType::DateRange)
    } else if s.len() == 10 && ascii_fold(s[0]) == 95 && ascii_fold(s[1]) == 100 && ascii_fold(s[2]) == 97 && ascii_fold(s[3]) == 116 && ascii_fold(s[4]) == 101 && ascii_fold(s[5]) == 114 && ascii_fold(s[6]) == 97 && ascii_fold(s[7]) == 110 && ascii_fold(s[8]) == 103 && ascii_fold(s[9]) == 101 {
        Some(PgType::DateRangeArray)
    } else if s.len() == 9 && ascii_fold(s[0]) == 105 && ascii_fold(s[1]) == 110 && ascii_fold(s[2]) == 116 && ascii_fold(s[3]) == 56 && ascii_fold(s[4]) == 114 && ascii_fold(s[5]) == 97 && ascii_fold(s[6]) == 110 && ascii_fold(s[7]) == 103 && ascii_fold(s[8]) == 101 {
        Some(PgType::Int8Range)
    } else if s.len() == 10 && ascii_fold(s[0]) == 95 && ascii_fold(s[1]) == 105 && ascii_fold(s[2]) == 110 && ascii_fold(s[3]) == 116 && ascii_fold(s[4]) == 56 && ascii_fold(s[5]) == 114 && ascii_fold(s[6]) == 97 && ascii_fold(s[7]) == 110 && ascii_fold(s[8]) == 103 && ascii_fold(s[9]) == 101 {
        Some(PgType::Int8RangeArray)
    } else if s.len() == 8 && ascii_fold(s[0]) == 106 && ascii_fold(s[1]) == 115 && ascii_fold(s[2]) == 111 && ascii_fold(s[3]) == 110 && ascii_fold(s[4]) == 112 && ascii_fold(s[5]) == 97 && ascii_fold(s[6]) == 116 && ascii_fold(s[7]) == 104 {
        Some(PgType::Jsonpath)
    } else if s.len() == 9 && ascii_fold(s[0]) == 95 && ascii_fold(s[1]) == 106 && ascii_fold(s[2]) == 115 && ascii_fold(s[3]) == 111 && ascii_fold(s[4]) == 110 && ascii_fold(s[5]) == 112 && ascii_fold(s[6]) == 97 && ascii_fold(s[7]) == 116 && ascii_fold(s[8]) == 104 {
        Some(PgType::JsonpathArray)
    } else if s.len() == 5 && ascii_fold(s[0]) == 109 && ascii_fold(s[1]) == 111 && ascii_fold(s[2]) == 110 && ascii_fold(s[3]) == 101 && ascii_fold(s[4]) == 121 {
        Some(PgType::Money)
    } else if s.len() == 6 && ascii_fold(s[0]) == 95 && ascii_fold(s[1]) == 109 && ascii_fold(s[2]) == 111 && ascii_fold(s[3]) == 110 && ascii_fold(s[4]) == 101 && ascii_fold(s[5]) == 121 {
        Some(PgType::MoneyArray)
    } else if s.len() == 4 && ascii_fold(s[0]) == 118 && ascii_fold(s[1]) == 111 && ascii_fold(s[2]) == 105 && ascii_fold(s[3]) == 100 {
        Some(PgType::Void)
    } else {
        None
    }
}

/// The built-in type whose display name matches `s` ignoring ASCII case, read character by
/// character.
spec fn display_entry(s: Seq<char>) -> Option<PgType> {
    if s.len() == 4 && ascii_fold(s[0]) == 98 && ascii_fold(s[1]) == 111 && ascii_fold(s[2]) == 111 && ascii_fold(s[3]) == 108 {
        Some(PgType::Bool)
    } else if s.len() == 5 && ascii_fold(s[0]) == 98 && ascii_fold(s[1]) == 121 && ascii_fold(s[2]) == 116 && ascii_fold(s[3]) == 101 && ascii_fold(s[4]) == 97 {
        Some(PgType::Bytea)
    } else if s.len() == 6 && ascii_fold(s[0]) == 34 && ascii_fold(s[1]) == 99 && ascii_fold(s[2]) == 104 && ascii_fold(s[3]) == 97 && ascii_fold(s[4]) == 114 && ascii_fold(s[5]) == 34 {
        Some(PgType::Char)
    } else if s.len() == 4 && ascii_fold(s[0]) == 110 && ascii_fold(s[1]) == 97 && ascii_fold(s[2]) == 109 && ascii_fold(s[3]) == 101 {
        Some(PgType::Name)
    } else if s.len() == 4 && ascii_fold(s[0]) == 105 && ascii_fold(s[1]) == 110 && ascii_fold(s[2]) == 116 && ascii_fold(s[3]) == 56 {
        Some(PgType::Int8)
    } else if s.len() == 4 && ascii_fold(s[0]) == 105 && ascii_fold(s[1]) == 110 && ascii_fold(s[2]) == 116 && ascii_fold(s[3]) == 50 {
        Some(PgType::Int2)
    } else if s.len() == 4 && ascii_fold(s[0]) == 105 && ascii_fold(s[1]) == 110 && ascii_fold(s[2]) == 116 && ascii_fold(s[3]) == 52 {
        Some(PgType::Int4)
    } else if s.len() == 4 && ascii_fold(s[0]) == 116 && ascii_fold(s[1]) == 101 && ascii_fold(s[2]) == 120 && ascii_fold(s[3]) == 116 {
        Some(PgType::Text)
    } else if s.len() == 3 && ascii_fold(s[0]) == 111 && ascii_fold(s[1]) == 105 && ascii_fold(s[2]) == 100 {
        Some(PgType::Oid)
    } else if s.len() == 4 && ascii_fold(s[0]) == 106 && ascii_fold(s[1]) == 115 && ascii_fold(s[2]) == 111 && ascii_fold(s[3]) == 110 {
        Some(PgType::Json)
    } else if s.len() == 6 && ascii_fold(s[0]) == 106 && ascii_fold(s[1]) == 115 && ascii_fold(s[2]) == 111 && ascii_fold(s[3]) == 110 && ascii_fold(s[4]) == 91 && ascii_fold(s[5]) == 93 {
        Some(PgType::JsonArray)
    } else if s.len() == 5 && ascii_fold(s[0]) == 112 && ascii_fold(s[1]) == 111 && ascii_fold(s[2]) == 105 && ascii_fold(s[3]) == 110 && ascii_fold(s[4]) == 116 {
        Some(PgType::Point)
    } else if s.len() == 4 && ascii_fold(s[0]) == 108 && ascii_fold(s[1]) == 115 && ascii_fold(s[2]) == 101 && ascii_fold(s[3]) == 103 {
        Some(PgType::Lseg)
    } else if s.len() == 4 && ascii_fold(s[0]) == 112 && ascii_fold(s[1]) == 97 && ascii_fold(s[2]) == 116 && ascii_fold(s[3]) == 104 {
        Some(PgType::Path)
    } else if s.len() == 3 && ascii_fold(s[0]) == 98 && ascii_fold(s[1]) == 111 && ascii_fold(s[2]) == 120 {
        Some(PgType::Box)
    } else if s.len() == 7 && ascii_fold(s[0]) == 112 && ascii_fold(s[1]) == 111 && ascii_fold(s[2]) == 108 && ascii_fold(s[3]) == 121 && ascii_fold(s[4]) == 103 && ascii_fold(s[5]) == 111 && ascii_fold(s[6]) == 110 {
        Some(PgType::Polygon)
    } else if s.len() == 4 && ascii_fold(s[0]) == 108 && ascii_fold(s[1]) == 105 && ascii_fold(s[2]) == 110 && ascii_fold(s[3]) == 101 {
        Some(PgType::Line)
    } else if s.len() == 6 && ascii_fold(s[0]) == 108 && ascii_fold(s[1]) == 105 && ascii_fold(s[2]) == 110 && ascii_fold(s[3]) == 101 && ascii_fold(s[4]) == 91 && ascii_fold(s[5]) == 93 {
        Some(PgType::LineArray)
    } else if s.len() == 4 && ascii_fold(s[0]) == 99 && ascii_fold(s[1]) == 105 && ascii_fold(s[2]) == 100 && ascii_fold(s[3]) == 114 {
        Some(PgType::Cidr)
    } else if s.len() == 6 && ascii_fold(s[0]) == 99 && ascii_fold(s[1]) == 105 && ascii_fold(s[2]) == 100 && ascii_fold(s[3]) == 114 && ascii_fold(s[4]) == 91 && ascii_fold(s[5]) == 93 {
        Some(PgType::CidrArray)
    } else if s.len() == 6 && ascii_fold(s[0]) == 102 && ascii_fold(s[1]) == 108 && ascii_fold(s[2]) == 111 && ascii_fold(s[3]) == 97 && ascii_fold(s[4]) == 116 && ascii_fold(s[5]) == 52 {
        Some(PgType::Float4)
    } else if s.len() == 6 && ascii_fold(s[0]) == 102 && ascii_fold(s[1]) == 108 && ascii_fold(s[2]) == 111 && ascii_fold(s[3]) == 97 && ascii_fold(s[4]) == 116 && ascii_fold(s[5]) == 56 {
        Some(PgType::Float8)
    } else if s.len() == 7 && ascii_fold(s[0]) == 117 && ascii_fold(s[1]) == 110 && ascii_fold(s[2]) == 107 && ascii_fold(s[3]) == 110 && ascii_fold(s[4]) == 111 && ascii_fold(s[5]) == 119 && ascii_fold(s[6]) == 110 {
        Some(PgType::Unknown)
    } else if s.len() == 6 && ascii_fold(s[0]) == 99 && ascii_fold(s[1]) == 105 && ascii_fold(s[2]) == 114 && ascii_fold(s[3]) == 99 && ascii_fold(s[4]) == 108 && ascii_fold(s[5]) == 101 {
        Some(PgType::Circle)
    } else if s.len() == 8 && ascii_fold(s[0]) == 99 && ascii_fold(s[1]) == 105 && ascii_fold(s[2]) == 114 && ascii_fold(s[3]) == 99 && ascii_fold(s[4]) == 108 && ascii_fold(s[5]) == 101 && ascii_fold(s[6]) == 91 && ascii_fold(s[7]) == 93 {
        Some(PgType::CircleArray)
    } else if s.len() == 8 && ascii_fold(s[0]) == 109 && ascii_fold(s[1]) == 97 && ascii_fold(s[2]) == 99 && ascii_fold(s[3]) == 97 && ascii_fold(s[4]) == 100 && ascii_fold(s[5]) == 100 && ascii_fold(s[6]) == 114 && ascii_fold(s[7]) == 56 {
        Some(PgType::Macaddr8)
    } else if s.len() == 10 && ascii_fold(s[0]) == 109 && ascii_fold(s[1]) == 97 && ascii_fold(s[2]) == 99 && ascii_fold(s[3]) == 97 && ascii_fold(s[4]) == 100 && ascii_fold(s[5]) == 100 && ascii_fold(s[6]) == 114 && ascii_fold(s[7]) == 56 && ascii_fold(s[8]) == 91 && ascii_fold(s[9]) == 93 {
        Some(PgType::Macaddr8Array)
    } else if s.len() == 7 && ascii_fold(s[0]) == 109 && ascii_fold(s[1]) == 97 && ascii_fold(s[2]) == 99 && ascii_fold(s[3]) == 97 && ascii_fold(s[4]) == 100 && ascii_fold(s[5]) == 100 && ascii_fold(s[6]) == 114 {
        Some(PgType::Macaddr)
    } else if s.len() == 4 && ascii_fold(s[0]) == 105 && ascii_fold(s[1]) == 110 && ascii_fold(s[2]) == 101 && ascii_fold(s[3]) == 116 {
        Some(PgType::Inet)
    } else if s.len() == 6 && ascii_fold(s[0]) == 98 && ascii_fold(s[1]) == 111 && ascii_fold(s[2]) == 111 && ascii_fold(s[3]) == 108 && ascii_fold(s[4]) == 91 && ascii_fold(s[5]) == 93 {
        Some(PgType::BoolArray)
    } else if s.len() == 7 && ascii_fold(s[0]) == 98 && ascii_fold(s[1]) == 121 && ascii_fold(s[2]) == 116 && ascii_fold(s[3]) == 101 && ascii_fold(s[4]) == 97 && ascii_fold(s[5]) == 91 && ascii_fold(s[6]) == 93 {
        Some(PgType::ByteaArray)
    } else if s.len() == 8 && ascii_fold(s[0]) == 34 && ascii_fold(s[1]) == 99 && ascii_fold(s[2]) == 104 && ascii_fold(s[3]) == 97 && ascii_fold(s[4]) == 114 && ascii_fold(s[5]) == 34 && ascii_fold(s[6]) == 91 && ascii_fold(s[7]) == 93 {
        Some(PgType::CharArray)
    } else if s.len() == 6 && ascii_fold(s[0]) == 110 && ascii_fold(s[1]) == 97 && ascii_fold(s[2]) == 109 && ascii_fold(s[3]) == 101 && ascii_fold(s[4]) == 91 && ascii_fold(s[5]) == 93 {
        Some(PgType::NameArray)
    } else if s.len() == 6 && ascii_fold(s[0]) == 105 && ascii_fold(s[1]) == 110 && ascii_fold(s[2]) == 116 && ascii_fold(s[3]) == 50 && ascii_fold(s[4]) == 91 && ascii_fold(s[5]) == 93 {
        Some(PgType::Int2Array)
    } else if s.len() == 6 && ascii_fold(s[0]) == 105 && ascii_fold(s[1]) == 110 && ascii_fold(s[2]) == 116 && ascii_fold(s[3]) == 52 && ascii_fold(s[4]) == 91 && ascii_fold(s[5]) == 93 {
        Some(PgType::Int4Array)
    } else if s.len() == 6 && ascii_fold(s[0]) == 116 && ascii_fold(s[1]) == 101 && ascii_fold(s[2]) == 120 && ascii_fold(s[3]) == 116 && ascii_fold(s[4]) == 91 && ascii_fold(s[5]) == 93 {
        Some(PgType::TextArray)
    } else if s.len() == 6 && ascii_fold(s[0]) == 99 && ascii_fold(s[1]) == 104 && ascii_fold(s[2]) == 97 && ascii_fold(s[3]) == 114 && ascii_fold(s[4]) == 91 && ascii_fold(s[5]) == 93 {
        Some(PgType::BpcharArray)
    } else if s.len() == 9 && ascii_fold(s[0]) == 118 && ascii_fold(s[1]) == 97 && ascii_fold(s[2]) == 114 && ascii_fold(s[3]) == 99 && ascii_fold(s[4]) == 104 && ascii_fold(s[5]) == 97 && ascii_fold(s[6]) == 114 && ascii_fold(s[7]) == 91 && ascii_fold(s[8]) == 93 {
        Some(PgType::VarcharArray)
    } else if s.len() == 6 && ascii_fold(s[0]) == 105 && ascii_fold(s[1]) == 110 && ascii_fold(s[2]) == 116 && ascii_fold(s[3]) == 56 && ascii_fold(s[4]) == 91 && ascii_fold(s[5]) == 93 {
        Some(PgType::Int8Array)
    } else if s.len() == 7 && ascii_fold(s[0]) == 112 && ascii_fold(s[1]) == 111 && ascii_fold(s[2]) == 105 && ascii_fold(s[3]) == 110 && ascii_fold(s[4]) == 116 && ascii_fold(s[5]) == 91 && ascii_fold(s[6]) == 93 {
        Some(PgType::PointArray)
    } else if s.len() == 6 && ascii_fold(s[0]) == 108 && ascii_fold(s[1]) == 115 && ascii_fold(s[2]) == 101 && ascii_fold(s[3]) == 103 && ascii_fold(s[4]) == 91 && ascii_fold(s[5]) == 93 {
        Some(PgType::LsegArray)
    } else if s.len() == 6 && ascii_fold(s[0]) == 112 && ascii_fold(s[1]) == 97 && ascii_fold(s[2]) == 116 && ascii_fold(s[3]) == 104 && ascii_fold(s[4]) == 91 && ascii_fold(s[5]) == 93 {
        Some(PgType::PathArray)
    } else if s.len() == 5 && ascii_fold(s[0]) == 98 && ascii_fold(s[1]) == 111 && ascii_fold(s[2]) == 120 && ascii_fold(s[3]) == 91 && ascii_fold(s[4]) == 93 {
        Some(PgType::BoxArray)
    } else if s.len() == 8 && ascii_fold(s[0]) == 102 && ascii_fold(s[1]) == 108 && ascii_fold(s[2]) == 111 && ascii_fold(s[3]) == 97 && ascii_fold(s[4]) == 116 && ascii_fold(s[5]) == 52 && ascii_fold(s[6]) == 91 && ascii_fold(s[7]) == 93 {
        Some(PgType::Float4Array)
    } else if s.len() == 8 && ascii_fold(s[0]) == 102 && ascii_fold(s[1]) == 108 && ascii_fold(s[2]) == 111 && ascii_fold(s[3]) == 97 && ascii_fold(s[4]) == 116 && ascii_fold(s[5]) == 56 && ascii_fold(s[6]) == 91 && ascii_fold(s[7]) == 93 {
        Some(PgType::Float8Array)
    } else if s.len() == 9 && ascii_fold(s[0]) == 112 && ascii_fold(s[1]) == 111 && ascii_fold(s[2]) == 108 && ascii_fold(s[3]) == 121 && ascii_fold(s[4]) == 103 && ascii_fold(s[5]) == 111 && ascii_fold(s[6]) == 110 && ascii_fold(s[7]) == 91 && ascii_fold(s[8]) == 93 {
        Some(PgType::PolygonArray)
    } else if s.len() == 5 && ascii_fold(s[0]) == 111 && ascii_fold(s[1]) == 105 && ascii_fold(s[2]) == 100 && ascii_fold(s[3]) == 91 && ascii_fold(s[4]) == 93 {
        Some(PgType::OidArray)
    } else if s.len() == 9 && ascii_fold(s[0]) == 109 && ascii_fold(s[1]) == 97 && ascii_fold(s[2]) == 99 && ascii_fold(s[3]) == 97 && ascii_fold(s[4]) == 100 && ascii_fold(s[5]) == 100 && ascii_fold(s[6]) == 114 && ascii_fold(s[7]) == 91 && ascii_fold(s[8]) == 93 {
        Some(PgType::MacaddrArray)
    } else if s.len() == 6 && ascii_fold(s[0]) == 105 && ascii_fold(s[1]) == 110 && ascii_fold(s[2]) == 101 && ascii_fold(s[3]) == 116 && ascii_fold(s[4]) == 91 && ascii_fold(s[5]) == 93 {
        Some(PgType::InetArray)
    } else if s.len() == 4 && ascii_fold(s[0]) == 99 && ascii_fold(s[1]) == 104 && ascii_fold(s[2]) == 97 && ascii_fold(s[3]) == 114 {
        Some(PgType::Bpchar)
    } else if s.len() == 7 && ascii_fold(s[0]) == 118 && ascii_fold(s[1]) == 97 && ascii_fold(s[2]) == 114 && ascii_fold(s[3]) == 99 && ascii_fold(s[4]) == 104 && ascii_fold(s[5]) == 97 && ascii_fold(s[6]) == 114 {
        Some(PgType::Varchar)
    } else if s.len() == 4 && ascii_fold(s[0]) == 100 && ascii_fold(s[1]) == 97 && ascii_fold(s[2]) == 116 && ascii_fold(s[3]) == 101 {
        Some(PgType::Date)
    } else if s.len() == 4 && ascii_fold(s[0]) == 116 && ascii_fold(s[1]) == 105 && ascii_fold(s[2]) == 109 && ascii_fold(s[3]) == 101 {
        Some(PgType::Time)
    } else if s.len() == 9 && ascii_fold(s[0]) == 116 && ascii_fold(s[1]) == 105 && ascii_fold(s[2]) == 109 && ascii_fold(s[3]) == 101 && ascii_fold(s[4]) == 115 && ascii_fold(s[5]) == 116 && ascii_fold(s[6]) == 97 && ascii_fold(s[7]) == 109 && ascii_fold(s[8]) == 112 {
        Some(PgType::Timestamp)
    } else if s.len() == 11 && ascii_fold(s[0]) == 116 && ascii_fold(s[1]) == 105 && ascii_fold(s[2]) == 109 && ascii_fold(s[3]) == 101 && ascii_fold(s[4]) == 115 && ascii_fold(s[5]) == 116 && ascii_fold(s[6]) == 97 && ascii_fold(s[7]) == 109 && ascii_fold(s[8]) == 112 && ascii_fold(s[9]) == 91 && ascii_fold(s[10]) == 93 {
        Some(PgType::TimestampArray)
    } else if s.len() == 6 && ascii_fold(s[0]) == 100 && ascii_fold(s[1]) == 97 && ascii_fold(s[2]) == 116 && ascii_fold(s[3]) == 101 && ascii_fold(s[4]) == 91 && ascii_fold(s[5]) == 93 {
        Some(PgType::DateArray)
    } else if s.len() == 6 && ascii_fold(s[0]) == 116 && ascii_fold(s[1]) == 105 && ascii_fold(s[2]) == 109 && ascii_fold(s[3]) == 101 && ascii_fold(s[4]) == 91 && ascii_fold(s[5]) == 93 {
        Some(PgType::TimeArray)
    } else if s.len() == 11 && ascii_fold(s[0]) == 116 && ascii_fold(s[1]) == 105 && ascii_fold(s[2]) == 109 && ascii_fold(s[3]) == 101 && ascii_fold(s[4]) == 115 && ascii_fold(s[5]) == 116 && ascii_fold(s[6]) == 97 && ascii_fold(s[7]) == 109 && ascii_fold(s[8]) == 112 && ascii_fold(s[9]) == 116 && ascii_fold(s[10]) == 122 {
        Some(PgType::Timestamptz)
    } else if s.len() == 13 && ascii_fold(s[0]) == 116 && ascii_fold(s[1]) == 105 && ascii_fold(s[2]) == 109 && ascii_fold(s[3]) == 101 && ascii_fold(s[4]) == 115 && ascii_fold(s[5]) == 116 && ascii_fold(s[6]) == 97 && ascii_fold(s[7]) == 109 && ascii_fold(s[8]) == 112 && ascii_fold(s[9]) == 116 && ascii_fold(s[10]) == 122 && ascii_fold(s[11]) == 91 && ascii_fold(s[12]) == 93 {
        Some(PgType::TimestamptzArray)
    } else if s.len() == 8 && ascii_fold(s[0]) == 105 && ascii_fold(s[1]) == 110 && ascii_fold(s[2]) == 116 && ascii_fold(s[3]) == 101 && ascii_fold(s[4]) == 114 && ascii_fold(s[5]) == 118 && ascii_fold(s[6]) == 97 && ascii_fold(s[7]) == 108 {
        Some(PgType::Interval)
    } else if s.len() == 10 && ascii_fold(s[0]) == 105 && ascii_fold(s[1]) == 110 && ascii_fold(s[2]) == 116 && ascii_fold(s[3]) == 101 && ascii_fold(s[4]) == 114 && ascii_fold(s[5]) == 118 && ascii_fold(s[6]) == 97 && ascii_fold(s[7]) == 108 && ascii_fold(s[8]) == 91 && ascii_fold(s[9]) == 93 {
        Some(PgType::IntervalArray)
    } else if s.len() == 9 && ascii_fold(s[0]) == 110 && ascii_fold(s[1]) == 117 && ascii_fold(s[2]) == 109 && ascii_fold(s[3]) == 101 && ascii_fold(s[4]) == 114 && ascii_fold(s[5]) == 105 && ascii_fold(s[6]) == 99 && ascii_fold(s[7]) == 91 && ascii_fold(s[8]) == 93 {
        Some(PgType::NumericArray)
    } else if s.len() == 6 && ascii_fold(s[0]) == 116 && ascii_fold(s[1]) == 105 && ascii_fold(s[2]) == 109 && ascii_fold(s[3]) == 101 && ascii_fold(s[4]) == 116 && ascii_fold(s[5]) == 122 {
        Some(PgType::Timetz)
    } else if s.len() == 8 && ascii_fold(s[0]) == 116 && ascii_fold(s[1]) == 105 && ascii_fold(s[2]) == 109 && ascii_fold(s[3]) == 101 && ascii_fold(s[4]) == 116 && ascii_fold(s[5]) == 122 && ascii_fold(s[6]) == 91 && ascii_fold(s[7]) == 93 {
        Some(PgType::TimetzArray)
    } else if s.len() == 3 && ascii_fold(s[0]) == 98 && ascii_fold(s[1]) == 105 && ascii_fold(s[2]) == 116 {
        Some(PgType::Bit)
    } else if s.len() == 5 && ascii_fold(s[0]) == 98 && ascii_fold(s[1]) == 105 && ascii_fold(s[2]) == 116 && ascii_fold(s[3]) == 91 && ascii_fold(s[4]) == 93 {
        Some(PgType::BitArray)
    } else if s.len() == 6 && ascii_fold(s[0]) == 118 && ascii_fold(s[1]) == 97 && ascii_fold(s[2]) == 114 && ascii_fold(s[3]) == 98 && ascii_fold(s[4]) == 105 && ascii_fold(s[5]) == 116 {
        Some(PgType::Varbit)
    } else if s.len() == 8 && ascii_fold(s[0]) == 118 && ascii_fold(s[1]) == 97 && ascii_fold(s[2]) == 114 && ascii_fold(s[3]) == 98 && ascii_fold(s[4]) == 105 && ascii_fold(s[5]) == 116 && ascii_fold(s[6]) == 91 && ascii_fold(s[7]) == 93 {
        Some(PgType::VarbitArray)
    } else if s.len() == 7 && ascii_fold(s[0]) == 110 && ascii_fold(s[1]) == 117 && ascii_fold(s[2]) == 109 && ascii_fold(s[3]) == 101 && ascii_fold(s[4]) == 114 && ascii_fold(s[5]) == 105 && ascii_fold(s[6]) == 99 {
        Some(PgType::Numeric)
    } else if s.len() == 6 && ascii_fold(s[0]) == 114 && ascii_fold(s[1]) == 101 && ascii_fold(s[2]) == 99 && ascii_fold(s[3]) == 111 && ascii_fold(s[4]) == 114 && ascii_fold(s[5]) == 100 {
        Some(PgType::Record)
    } else if s.len() == 8 && ascii_fold(s[0]) == 114 && ascii_fold(s[1]) == 101 && ascii_fold(s[2]) == 99 && ascii_fold(s[3]) == 111 && ascii_fold(s[4]) == 114 && ascii_fold(s[5]) == 100 && ascii_fold(s[6]) == 91 && ascii_fold(s[7]) == 93 {
        Some(PgType::RecordArray)
    } else if s.len() == 4 && ascii_fold(s[0]) == 117 && ascii_fold(s[1]) == 117 && ascii_fold(s[2]) == 105 && ascii_fold(s[3]) == 100 {
        Some(PgType::Uuid)
    } else if s.len() == 6 && ascii_fold(s[0]) == 117 && ascii_fold(s[1]) == 117 && ascii_fold(s[2]) == 105 && ascii_fold(s[3]) == 100 && ascii_fold(s[4]) == 91 && ascii_fold(s[5]) == 93 {
        Some(PgType::UuidArray)
    } else if s.len() == 5 && ascii_fold(s[0]) == 106 && ascii_fold(s[1]) == 115 && ascii_fold(s[2]) == 111 && ascii_fold(s[3]) == 110 && ascii_fold(s[4]) == 98 {
        Some(PgType::Jsonb)
    } else if s.len() == 7 && ascii_fold(s[0]) == 106 && ascii_fold(s[1]) == 115 && ascii_fold(s[2]) == 111 && ascii_fold(s[3]) == 110 && ascii_fold(s[4]) == 98 && ascii_fold(s[5]) == 91 && ascii_fold(s[6]) == 93 {
        Some(PgType::JsonbArray)
    } else if s.len() == 9 && ascii_fold(s[0]) == 105 && ascii_fold(s[1]) == 110 && ascii_fold(s[2]) == 116 && ascii_fold(s[3]) == 52 && ascii_fold(s[4]) == 114 && ascii_fold(s[5]) == 97 && ascii_fold(s[6]) == 110 && ascii_fold(s[7]) == 103 && ascii_fold(s[8]) == 101 {
        Some(PgType::Int4Range)
    } else if s.len() == 11 && ascii_fold(s[0]) == 105 && ascii_fold(s[1]) == 110 && ascii_fold(s[2]) == 116 && ascii_fold(s[3]) == 52 && ascii_fold(s[4]) == 114 && ascii_fold(s[5]) == 97 && ascii_fold(s[6]) == 110 && ascii_fold(s[7]) == 103 && ascii_fold(s[8]) == 101 && ascii_fold(s[9]) == 91 && ascii_fold(s[10]) == 93 {
        Some(PgType::Int4RangeArray)
    } else if s.len() == 8 && ascii_fold(s[0]) == 110 && ascii_fold(s[1]) == 117 && ascii_fold(s[2]) == 109 && ascii_fold(s[3]) == 114 && ascii_fold(s[4]) == 97 && ascii_fold(s[5]) == 110 && ascii_fold(s[6]) == 103 && ascii_fold(s[7]) == 101 {
        Some(PgType::NumRange)
    } else if s.len() == 10 && ascii_fold(s[0]) == 110 && ascii_fold(s[1]) == 117 && ascii_fold(s[2]) == 109 && ascii_fold(s[3]) == 114 && ascii_fold(s[4]) == 97 && ascii_fold(s[5]) == 110 && ascii_fold(s[6]) == 103 && ascii_fold(s[7]) == 101 && ascii_fold(s[8]) == 91 && ascii_fold(s[9]) == 93 {
        Some(PgType::NumRangeArray)
    } else if s.len() == 7 && ascii_fold(s[0]) == 116 && ascii_fold(s[1]) == 115 && ascii_fold(s[2]) == 114 && ascii_fold(s[3]) == 97 && ascii_fold(s[4]) == 110 && ascii_fold(s[5]) == 103 && ascii_fold(s[6]) == 101 {
        Some(PgType::TsRange)
    } else if s.len() == 9 && ascii_fold(s[0]) == 116 && ascii_fold(s[1]) == 115 && ascii_fold(s[2]) == 114 && ascii_fold(s[3]) == 97 && ascii_fold(s[4]) == 110 && ascii_fold(s[5]) == 103 && ascii_fold(s[6]) == 101 && ascii_fold(s[7]) == 91 && ascii_fold(s[8]) == 93 {
        Some(PgType::TsRangeArray)
    } else if s.len() == 9 && ascii_fold(s[0]) == 116 && ascii_fold(s[1]) == 115 && ascii_fold(s[2]) == 116 && ascii_fold(s[3]) == 122 && ascii_fold(s[4]) == 114 && ascii_fold(s[5]) == 97 && ascii_fold(s[6]) == 110 && ascii_fold(s[7]) == 103 && ascii_fold(s[8]) == 101 {
        Some(PgType::TstzRange)
    } else if s.len() == 11 && ascii_fold(s[0]) == 116 && ascii_fold(s[1]) == 115 && ascii_fold(s[2]) == 116 && ascii_fold(s[3]) == 122 && ascii_fold(s[4]) == 114 && ascii_fold(s[5]) == 97 && ascii_fold(s[6]) == 110 && ascii_fold(s[7]) == 103 && ascii_fold(s[8]) == 101 && ascii_fold(s[9]) == 91 && ascii_fold(s[10]) == 93 {
        Some(PgType::TstzRangeArray)
    } else if s.len() == 9 && ascii_fold(s[0]) == 100 && ascii_fold(s[1]) == 97 && ascii_fold(s[2]) == 116 && ascii_fold(s[3]) == 101 && ascii_fold(s[4]) == 114 && ascii_fold(s[5]) == 97 && ascii_fold(s[6]) == 110 && ascii_fold(s[7]) == 103 && ascii_fold(s[8]) == 101 {
        Some(PgType::DateRange)
    } else if s.len() == 11 && ascii_fold(s[0]) == 100 && ascii_fold(s[1]) == 97 && ascii_fold(s[2]) == 116 && ascii_fold(s[3]) == 101 && ascii_fold(s[4]) == 114 && ascii_fold(s[5]) == 97 && ascii_fold(s[6]) == 110 && ascii_fold(s[7]) == 103 && ascii_fold(s[8]) == 101 && ascii_fold(s[9]) == 91 && ascii_fold(s[10]) == 93 {
        Some(PgType::DateRangeArray)
    } else if s.len() == 9 && ascii_fold(s[0]) == 105 && ascii_fold(s[1]) == 110 && ascii_fold(s[2]) == 116 && ascii_fold(s[3]) == 56 && ascii_fold(s[4]) == 114 && ascii_fold(s[5]) == 97 && ascii_fold(s[6]) == 110 && ascii_fold(s[7]) == 103 && ascii_fold(s[8]) == 101 {
        Some(PgType::Int8Range)
    } else if s.len() == 11 && ascii_fold(s[0]) == 105 && ascii_fold(s[1]) == 110 && ascii_fold(s[2]) == 116 && ascii_fold(s[3]) == 56 && ascii_fold(s[4]) == 114 && ascii_fold(s[5]) == 97 && ascii_fold(s[6]) == 110 && ascii_fold(s[7]) == 103 && ascii_fold(s[8]) == 101 && ascii_fold(s[9]) == 91 && ascii_fold(s[10]) == 93 {
        Some(PgType::Int8RangeArray)
    } else if s.len() == 8 && ascii_fold(s[0]) == 106 && ascii_fold(s[1]) == 115 && ascii_fold(s[2]) == 111 && ascii_fold(s[3]) == 110 && ascii_fold(s[4]) == 112 && ascii_fold(s[5]) == 97 && ascii_fold(s[6]) == 116 && ascii_fold(s[7]) == 104 {
        Some(PgType::Jsonpath)
    } else if s.len() == 10 && ascii_fold(s[0]) == 106 && ascii_fold(s[1]) == 115 && ascii_fold(s[2]) == 111 && ascii_fold(s[3]) == 110 && ascii_fold(s[4]) == 112 && ascii_fold(s[5]) == 97 && ascii_fold(s[6]) == 116 && ascii_fold(s[7]) == 104 && ascii_fold(s[8]) == 91 && ascii_fold(s[9]) == 93 {
        Some(PgType::JsonpathArray)
    } else if s.len() == 5 && ascii_fold(s[0]) == 109 && ascii_fold(s[1]) == 111 && ascii_fold(s[2]) == 110 && ascii_fold(s[3]) == 101 && ascii_fold(s[4]) == 121 {
        Some(PgType::Money)
    } else if s.len() == 7 && ascii_fold(s[0]) == 109 && ascii_fold(s[1]) == 111 && ascii_fold(s[2]) == 110 && ascii_fold(s[3]) == 101 && ascii_fold(s[4]) == 121 && ascii_fold(s[5]) == 91 && ascii_fold(s[6]) == 93 {
        Some(PgType::MoneyArray)
    } else if s.len() == 4 && ascii_fold(s[0]) == 118 && ascii_fold(s[1]) == 111 && ascii_fold(s[2]) == 105 && ascii_fold(s[3]) == 100 {
        Some(PgType::Void)
    } else {
        None
    }
}

/// Reading the catalog name of a built-in type back gives the type.
proof fn lemma_name_entry_of_builtin(t: PgType)
    requires
        t.is_builtin(),
    ensures
        name_entry(t.spec_name()) == Some(t),
{
    reveal_strlit("bool");
    reveal_strlit("bytea");
    reveal_strlit("char");
    reveal_strlit("name");
    reveal_strlit("int8");
    reveal_strlit("int2");
    reveal_strlit("int4");
    reveal_strlit("text");
    reveal_strlit("oid");
    reveal_strlit("json");
    reveal_strlit("_json");
    reveal_strlit("point");
    reveal_strlit("lseg");
    reveal_strlit("path");
    reveal_strlit("box");
    reveal_strlit("polygon");
    reveal_strlit("line");
    reveal_strlit("_line");
    reveal_strlit("cidr");
    reveal_strlit("_cidr");
    reveal_strlit("float4");
    reveal_strlit("float8");
    reveal_strlit("unknown");
    reveal_strlit("circle");
    reveal_strlit("_circle");
    reveal_strlit("macaddr8");
    reveal_strlit("_macaddr8");
    reveal_strlit("macaddr");
    reveal_strlit("inet");
    reveal_strlit("_bool");
    reveal_strlit("_bytea");
    reveal_strlit("_char");
    reveal_strlit("_name");
    reveal_strlit("_int2");
    reveal_strlit("_int4");
    reveal_strlit("_text");
    reveal_strlit("_bpchar");
    reveal_strlit("_varchar");
    reveal_strlit("_int8");
    reveal_strlit("_point");
    reveal_strlit("_lseg");
    reveal_strlit("_path");
    reveal_strlit("_box");
    reveal_strlit("_float4");
    reveal_strlit("_float8");
    reveal_strlit("_polygon");
    reveal_strlit("_oid");
    reveal_strlit("_macaddr");
    reveal_strlit("_inet");
    reveal_strlit("bpchar");
    reveal_strlit("varchar");
    reveal_strlit("date");
    reveal_strlit("time");
    reveal_strlit("timestamp");
    reveal_strlit("_timestamp");
    reveal_strlit("_date");
    reveal_strlit("_time");
    reveal_strlit("timestamptz");
    reveal_strlit("_timestamptz");
    reveal_strlit("interval");
    reveal_strlit("_interval");
    reveal_strlit("_numeric");
    reveal_strlit("timetz");
    reveal_strlit("_timetz");
    reveal_strlit("bit");
    reveal_strlit("_bit");
    reveal_strlit("varbit");
    reveal_strlit("_varbit");
    reveal_strlit("numeric");
    reveal_strlit("record");
    reveal_strlit("_record");
    reveal_strlit("uuid");
    reveal_strlit("_uuid");
    reveal_strlit("jsonb");
    reveal_strlit("_jsonb");
    reveal_strlit("int4range");
    reveal_strlit("_int4range");
    reveal_strlit("numrange");
    reveal_strlit("_numrange");
    reveal_strlit("tsrange");
    reveal_strlit("_tsrange");
    reveal_strlit("tstzrange");
    reveal_strlit("_tstzrange");
    reveal_strlit("daterange");
    reveal_strlit("_daterange");
    reveal_strlit("int8range");
    reveal_strlit("_int8range");
    reveal_strlit("jsonpath");
    reveal_strlit("_jsonpath");
    reveal_strlit("money");
    reveal_strlit("_money");
    reveal_strlit("void");
}

/// Strings that match ignoring ASCII case are read back to the same built-in type.
proof fn lemma_name_entry_respects_case(a: Seq<char>, b: Seq<char>)
    requires
        eq_ignore_ascii_case_spec(a, b),
    ensures
        name_entry(a) == name_entry(b),
{
}

/// Reading the display name of a built-in type back gives the type.
proof fn lemma_display_entry_of_builtin(t: PgType)
    requires
        t.is_builtin(),
    ensures
        display_entry(t.spec_display_name()) == Some(t),
{
    reveal_strlit("BOOL");
    reveal_strlit("BYTEA");
    reveal_strlit("\"CHAR\"");
    reveal_strlit("NAME");
    reveal_strlit("INT8");
    reveal_strlit("INT2");
    reveal_strlit("INT4");
    reveal_strlit("TEXT");
    reveal_strlit("OID");
    reveal_strlit("JSON");
    reveal_strlit("JSON[]");
    reveal_strlit("POINT");
    reveal_strlit("LSEG");
    reveal_strlit("PATH");
    reveal_strlit("BOX");
    reveal_strlit("POLYGON");
    reveal_strlit("LINE");
    reveal_strlit("LINE[]");
    reveal_strlit("CIDR");
    reveal_strlit("CIDR[]");
    reveal_strlit("FLOAT4");
    reveal_strlit("FLOAT8");
    reveal_strlit("UNKNOWN");
    reveal_strlit("CIRCLE");
    reveal_strlit("CIRCLE[]");
    reveal_strlit("MACADDR8");
    reveal_strlit("MACADDR8[]");
    reveal_strlit("MACADDR");
    reveal_strlit("INET");
    reveal_strlit("BOOL[]");
    reveal_strlit("BYTEA[]");
    reveal_strlit("\"CHAR\"[]");
    reveal_strlit("NAME[]");
    reveal_strlit("INT2[]");
    reveal_strlit("INT4[]");
    reveal_strlit("TEXT[]");
    reveal_strlit("CHAR[]");
    reveal_strlit("VARCHAR[]");
    reveal_strlit("INT8[]");
    reveal_strlit("POINT[]");
    reveal_strlit("LSEG[]");
    reveal_strlit("PATH[]");
    reveal_strlit("BOX[]");
    reveal_strlit("FLOAT4[]");
    reveal_strlit("FLOAT8[]");
    reveal_strlit("POLYGON[]");
    reveal_strlit("OID[]");
    reveal_strlit("MACADDR[]");
    reveal_strlit("INET[]");
    reveal_strlit("CHAR");
    reveal_strlit("VARCHAR");
    reveal_strlit("DATE");
    reveal_strlit("TIME");
    reveal_strlit("TIMESTAMP");
    reveal_strlit("TIMESTAMP[]");
    reveal_strlit("DATE[]");
    reveal_strlit("TIME[]");
    reveal_strlit("TIMESTAMPTZ");
    reveal_strlit("TIMESTAMPTZ[]");
    reveal_strlit("INTERVAL");
    reveal_strlit("INTERVAL[]");
    reveal_strlit("NUMERIC[]");
    reveal_strlit("TIMETZ");
    reveal_strlit("TIMETZ[]");
    reveal_strlit("BIT");
    reveal_strlit("BIT[]");
    reveal_strlit("VARBIT");
    reveal_strlit("VARBIT[]");
    reveal_strlit("NUMERIC");
    reveal_strlit("RECORD");
    reveal_strlit("RECORD[]");
    reveal_strlit("UUID");
    reveal_strlit("UUID[]");
    reveal_strlit("JSONB");
    reveal_strlit("JSONB[]");
    reveal_strlit("INT4RANGE");
    reveal_strlit("INT4RANGE[]");
    reveal_strlit("NUMRANGE");
    reveal_strlit("NUMRANGE[]");
    reveal_strlit("TSRANGE");
    reveal_strlit("TSRANGE[]");
    reveal_strlit("TSTZRANGE");
    reveal_strlit("TSTZRANGE[]");
    reveal_strlit("DATERANGE");
    reveal_strlit("DATERANGE[]");
    reveal_strlit("INT8RANGE");
    reveal_strlit("INT8RANGE[]");
    reveal_strlit("JSONPATH");
    reveal_strlit("JSONPATH[]");
    reveal_strlit("MONEY");
    reveal_strlit("MONEY[]");
    reveal_strlit("VOID");
}

/// Strings that match ignoring ASCII case are read back to the same built-in type.
proof fn lemma_display_entry_respects_case(a: Seq<char>, b: Seq<char>)
    requires
        eq_ignore_ascii_case_spec(a, b),
    ensures
        display_entry(a) == display_entry(b),
{
}

/// A built-in type has an OID, and looking that OID up among the built-in types gives the
/// type back: `try_from_oid` undoes `oid` on every built-in type.
pub proof fn lemma_from_oid_undoes_oid(t: PgType)
    requires
        t.is_builtin(),
    ensures
        t.spec_try_oid() is Some,
        is_builtin_oid(t.spec_try_oid().unwrap()),
        builtin_with_oid(t.spec_try_oid().unwrap()) == Some(t),
{
    lemma_builtin_oids_distinct_all(t);
}

/// Whatever `try_from_oid` finds for an OID is a built-in type with exactly that OID:
/// `oid` undoes `try_from_oid` wherever it succeeds.
pub proof fn lemma_oid_undoes_from_oid(oid: Oid)
    ensures
        builtin_with_oid(oid) matches Some(t) ==> t.is_builtin() && t.spec_try_oid() == Some(
            oid,
        ),
{
}

/// No two built-in types share an OID.
pub proof fn lemma_builtin_oids_distinct(a: PgType, b: PgType)
    requires
        a.is_builtin(),
        b.is_builtin(),
        a.spec_try_oid() == b.spec_try_oid(),
    ensures
        a == b,
{
    lemma_builtin_oids_distinct_all(a);
}

/// The kind of a built-in type is simple, pseudo (`void` alone), an array of a built-in
/// type that is not itself an array, or a range over a simple built-in type.
pub proof fn lemma_builtin_kinds(t: PgType)
    requires
        t.is_builtin(),
    ensures
        t.spec_kind() is Simple || t.spec_kind() is Pseudo || t.spec_kind() is Array
            || t.spec_kind() is Range,
        t.spec_kind() is Pseudo <==> t is Void,
        t.spec_kind() matches PgTypeKind::Array(elem) ==> elem.0.is_builtin() && !(
        elem.0.spec_kind() is Array),
        t.spec_kind() matches PgTypeKind::Range(elem) ==> elem.0.is_builtin()
            && elem.0.spec_kind() is Simple,
{
}

/// A built-in array type is named after its element type: its catalog name is the
/// element's with a leading `_`, and its display name is the element's followed by `[]`.
pub proof fn lemma_array_naming(t: PgType)
    requires
        t.is_builtin(),
    ensures
        t.spec_kind() matches PgTypeKind::Array(elem) ==> {
            &&& t.spec_name() == seq!['_'] + elem.0.spec_name()
            &&& t.spec_display_name() == elem.0.spec_display_name() + "[]"@
        },
{
    reveal_strlit("[]");
    match t {
        PgType::JsonArray => {
            reveal_strlit("_json");
            reveal_strlit("json");
            reveal_strlit("JSON[]");
            reveal_strlit("JSON");
            assert(t.spec_name() =~= seq!['_'] + PgType::Json.spec_name());
            assert(t.spec_display_name() =~= PgType::Json.spec_display_name() + "[]"@);
        },
        PgType::LineArray => {
            reveal_strlit("_line");
            reveal_strlit("line");
            reveal_strlit("LINE[]");
            reveal_strlit("LINE");
            assert(t.spec_name() =~= seq!['_'] + PgType::Line.spec_name());
            assert(t.spec_display_name() =~= PgType::Line.spec_display_name() + "[]"@);
        },
        PgType::CidrArray => {
            reveal_strlit("_cidr");
            reveal_strlit("cidr");
            reveal_strlit("CIDR[]");
            reveal_strlit("CIDR");
            assert(t.spec_name() =~= seq!['_'] + PgType::Cidr.spec_name());
            assert(t.spec_display_name() =~= PgType::Cidr.spec_display_name() + "[]"@);
        },
        PgType::CircleArray => {
            reveal_strlit("_circle");
            reveal_strlit("circle");
            reveal_strlit("CIRCLE[]");
            reveal_strlit("CIRCLE");
            assert(t.spec_name() =~= seq!['_'] + PgType::Circle.spec_name());
            assert(t.spec_display_name() =~= PgType::Circle.spec_display_name() + "[]"@);
        },
        PgType::Macaddr8Array => {
            reveal_strlit("_macaddr8");
            reveal_strlit("macaddr8");
            reveal_strlit("MACADDR8[]");
            reveal_strlit("MACADDR8");
            assert(t.spec_name() =~= seq!['_'] + PgType::Macaddr8.spec_name());
            assert(t.spec_display_name() =~= PgType::Macaddr8.spec_display_name() + "[]"@);
        },
        PgType::BoolArray => {
            reveal_strlit("_bool");
            reveal_strlit("bool");
            reveal_strlit("BOOL[]");
            reveal_strlit("BOOL");
            assert(t.spec_name() =~= seq!['_'] + PgType::Bool.spec_name());
            assert(t.spec_display_name() =~= PgType::Bool.spec_display_name() + "[]"@);
        },
        PgType::ByteaArray => {
            reveal_strlit("_bytea");
            reveal_strlit("bytea");
            reveal_strlit("BYTEA[]");
            reveal_strlit("BYTEA");
            assert(t.spec_name() =~= seq!['_'] + PgType::Bytea.spec_name());
            assert(t.spec_display_name() =~= PgType::Bytea.spec_display_name() + "[]"@);
        },
        PgType::CharArray => {
            reveal_strlit("_char");
            reveal_strlit("char");
            reveal_strlit("\"CHAR\"[]");
            reveal_strlit("\"CHAR\"");
            assert(t.spec_name() =~= seq!['_'] + PgType::Char.spec_name());
            assert(t.spec_display_name() =~= PgType::Char.spec_display_name() + "[]"@);
        },
        PgType::NameArray => {
            reveal_strlit("_name");
            reveal_strlit("name");
            reveal_strlit("NAME[]");
            reveal_strlit("NAME");
            assert(t.spec_name() =~= seq!['_'] + PgType::Name.spec_name());
            assert(t.spec_display_name() =~= PgType::Name.spec_display_name() + "[]"@);
        },
        PgType::Int2Array => {
            reveal_strlit("_int2");
            reveal_strlit("int2");
            reveal_strlit("INT2[]");
            reveal_strlit("INT2");
            assert(t.spec_name() =~= seq!['_'] + PgType::Int2.spec_name());
            assert(t.spec_display_name() =~= PgType::Int2.spec_display_name() + "[]"@);
        },
        PgType::Int4Array => {
            reveal_strlit("_int4");
            reveal_strlit("int4");
            reveal_strlit("INT4[]");
            reveal_strlit("INT4");
            assert(t.spec_name() =~= seq!['_'] + PgType::Int4.spec_name());
            assert(t.spec_display_name() =~= PgType::Int4.spec_display_name() + "[]"@);
        },
        PgType::TextArray => {
            reveal_strlit("_text");
            reveal_strlit("text");
            reveal_strlit("TEXT[]");
            reveal_strlit("TEXT");
            assert(t.spec_name() =~= seq!['_'] + PgType::Text.spec_name());
            assert(t.spec_display_name() =~= PgType::Text.spec_display_name() + "[]"@);
        },
        PgType::BpcharArray => {
            reveal_strlit("_bpchar");
            reveal_strlit("bpchar");
            reveal_strlit("CHAR[]");
            reveal_strlit("CHAR");
            assert(t.spec_name() =~= seq!['_'] + PgType::Bpchar.spec_name());
            assert(t.spec_display_name() =~= PgType::Bpchar.spec_display_name() + "[]"@);
        },
        PgType::VarcharArray => {
            reveal_strlit("_varchar");
            reveal_strlit("varchar");
            reveal_strlit("VARCHAR[]");
            reveal_strlit("VARCHAR");
            assert(t.spec_name() =~= seq!['_'] + PgType::Varchar.spec_name());
            assert(t.spec_display_name() =~= PgType::Varchar.spec_display_name() + "[]"@);
        },
        PgType::Int8Array => {
            reveal_strlit("_int8");
            reveal_strlit("int8");
            reveal_strlit("INT8[]");
            reveal_strlit("INT8");
            assert(t.spec_name() =~= seq!['_'] + PgType::Int8.spec_name());
            assert(t.spec_display_name() =~= PgType::Int8.spec_display_name() + "[]"@);
        },
        PgType::PointArray => {
            reveal_strlit("_point");
            reveal_strlit("point");
            reveal_strlit("POINT[]");
            reveal_strlit("POINT");
            assert(t.spec_name() =~= seq!['_'] + PgType::Point.spec_name());
            assert(t.spec_display_name() =~= PgType::Point.spec_display_name() + "[]"@);
        },
        PgType::LsegArray => {
            reveal_strlit("_lseg");
            reveal_strlit("lseg");
            reveal_strlit("LSEG[]");
            reveal_strlit("LSEG");
            assert(t.spec_name() =~= seq!['_'] + PgType::Lseg.spec_name());
            assert(t.spec_display_name() =~= PgType::Lseg.spec_display_name() + "[]"@);
        },
        PgType::PathArray => {
            reveal_strlit("_path");
            reveal_strlit("path");
            reveal_strlit("PATH[]");
            reveal_strlit("PATH");
            assert(t.spec_name() =~= seq!['_'] + PgType::Path.spec_name());
            assert(t.spec_display_name() =~= PgType::Path.spec_display_name() + "[]"@);
        },
        PgType::BoxArray => {
            reveal_strlit("_box");
            reveal_strlit("box");
            reveal_strlit("BOX[]");
            reveal_strlit("BOX");
            assert(t.spec_name() =~= seq!['_'] + PgType::Box.spec_name());
            assert(t.spec_display_name() =~= PgType::Box.spec_display_name() + "[]"@);
        },
        PgType::Float4Array => {
            reveal_strlit("_float4");
            reveal_strlit("float4");
            reveal_strlit("FLOAT4[]");
            reveal_strlit("FLOAT4");
            assert(t.spec_name() =~= seq!['_'] + PgType::Float4.spec_name());
            assert(t.spec_display_name() =~= PgType::Float4.spec_display_name() + "[]"@);
        },
        PgType::Float8Array => {
            reveal_strlit("_float8");
            reveal_strlit("float8");
            reveal_strlit("FLOAT8[]");
            reveal_strlit("FLOAT8");
            assert(t.spec_name() =~= seq!['_'] + PgType::Float8.spec_name());
            assert(t.spec_display_name() =~= PgType::Float8.spec_display_name() + "[]"@);
        },
        PgType::PolygonArray => {
            reveal_strlit("_polygon");
            reveal_strlit("polygon");
            reveal_strlit("POLYGON[]");
            reveal_strlit("POLYGON");
            assert(t.spec_name() =~= seq!['_'] + PgType::Polygon.spec_name());
            assert(t.spec_display_name() =~= PgType::Polygon.spec_display_name() + "[]"@);
        },
        PgType::OidArray => {
            reveal_strlit("_oid");
            reveal_strlit("oid");
            reveal_strlit("OID[]");
            reveal_strlit("OID");
            assert(t.spec_name() =~= seq!['_'] + PgType::Oid.spec_name());
            assert(t.spec_display_name() =~= PgType::Oid.spec_display_name() + "[]"@);
        },
        PgType::MacaddrArray => {
            reveal_strlit("_macaddr");
            reveal_strlit("macaddr");
            reveal_strlit("MACADDR[]");
            reveal_strlit("MACADDR");
            assert(t.spec_name() =~= seq!['_'] + PgType::Macaddr.spec_name());
            assert(t.spec_display_name() =~= PgType::Macaddr.spec_display_name() + "[]"@);
        },
        PgType::InetArray => {
            reveal_strlit("_inet");
            reveal_strlit("inet");
            reveal_strlit("INET[]");
            reveal_strlit("INET");
            assert(t.spec_name() =~= seq!['_'] + PgType::Inet.spec_name());
            assert(t.spec_display_name() =~= PgType::Inet.spec_display_name() + "[]"@);
        },
        PgType::TimestampArray => {
            reveal_strlit("_timestamp");
            reveal_strlit("timestamp");
            reveal_strlit("TIMESTAMP[]");
            reveal_strlit("TIMESTAMP");
            assert(t.spec_name() =~= seq!['_'] + PgType::Timestamp.spec_name());
            assert(t.spec_display_name() =~= PgType::Timestamp.spec_display_name() + "[]"@);
        },
        PgType::DateArray => {
            reveal_strlit("_date");
            reveal_strlit("date");
            reveal_strlit("DATE[]");
            reveal_strlit("DATE");
            assert(t.spec_name() =~= seq!['_'] + PgType::Date.spec_name());
            assert(t.spec_display_name() =~= PgType::Date.spec_display_name() + "[]"@);
        },
        PgType::TimeArray => {
            reveal_strlit("_time");
            reveal_strlit("time");
            reveal_strlit("TIME[]");
            reveal_strlit("TIME");
            assert(t.spec_name() =~= seq!['_'] + PgType::Time.spec_name());
            assert(t.spec_display_name() =~= PgType::Time.spec_display_name() + "[]"@);
        },
        PgType::TimestamptzArray => {
            reveal_strlit("_timestamptz");
            reveal_strlit("timestamptz");
            reveal_strlit("TIMESTAMPTZ[]");
            reveal_strlit("TIMESTAMPTZ");
            assert(t.spec_name() =~= seq!['_'] + PgType::Timestamptz.spec_name());
            assert(t.spec_display_name() =~= PgType::Timestamptz.spec_display_name() + "[]"@);
        },
        PgType::IntervalArray => {
            reveal_strlit("_interval");
            reveal_strlit("interval");
            reveal_strlit("INTERVAL[]");
            reveal_strlit("INTERVAL");
            assert(t.spec_name() =~= seq!['_'] + PgType::Interval.spec_name());
            assert(t.spec_display_name() =~= PgType::Interval.spec_display_name() + "[]"@);
        },
        PgType::NumericArray => {
            reveal_strlit("_numeric");
            reveal_strlit("numeric");
            reveal_strlit("NUMERIC[]");
            reveal_strlit("NUMERIC");
            assert(t.spec_name() =~= seq!['_'] + PgType::Numeric.spec_name());
            assert(t.spec_display_name() =~= PgType::Numeric.spec_display_name() + "[]"@);
        },
        PgType::TimetzArray => {
            reveal_strlit("_timetz");
            reveal_strlit("timetz");
            reveal_strlit("TIMETZ[]");
            reveal_strlit("TIMETZ");
            assert(t.spec_name() =~= seq!['_'] + PgType::Timetz.spec_name());
            assert(t.spec_display_name() =~= PgType::Timetz.spec_display_name() + "[]"@);
        },
        PgType::BitArray => {
            reveal_strlit("_bit");
            reveal_strlit("bit");
            reveal_strlit("BIT[]");
            reveal_strlit("BIT");
            assert(t.spec_name() =~= seq!['_'] + PgType::Bit.spec_name());
            assert(t.spec_display_name() =~= PgType::Bit.spec_display_name() + "[]"@);
        },
        PgType::VarbitArray => {
            reveal_strlit("_varbit");
            reveal_strlit("varbit");
            reveal_strlit("VARBIT[]");
            reveal_strlit("VARBIT");
            assert(t.spec_name() =~= seq!['_'] + PgType::Varbit.spec_name());
            assert(t.spec_display_name() =~= PgType::Varbit.spec_display_name() + "[]"@);
        },
        PgType::RecordArray => {
            reveal_strlit("_record");
            reveal_strlit("record");
            reveal_strlit("RECORD[]");
            reveal_strlit("RECORD");
            assert(t.spec_name() =~= seq!['_'] + PgType::Record.spec_name());
            assert(t.spec_display_name() =~= PgType::Record.spec_display_name() + "[]"@);
        },
        PgType::UuidArray => {
            reveal_strlit("_uuid");
            reveal_strlit("uuid");
            reveal_strlit("UUID[]");
            reveal_strlit("UUID");
            assert(t.spec_name() =~= seq!['_'] + PgType::Uuid.spec_name());
            assert(t.spec_display_name() =~= PgType::Uuid.spec_display_name() + "[]"@);
        },
        PgType::JsonbArray => {
            reveal_strlit("_jsonb");
            reveal_strlit("jsonb");
            reveal_strlit("JSONB[]");
            reveal_strlit("JSONB");
            assert(t.spec_name() =~= seq!['_'] + PgType::Jsonb.spec_name());
            assert(t.spec_display_name() =~= PgType::Jsonb.spec_display_name() + "[]"@);
        },
        PgType::Int4RangeArray => {
            reveal_strlit("_int4range");
            reveal_strlit("int4range");
            reveal_strlit("INT4RANGE[]");
            reveal_strlit("INT4RANGE");
            assert(t.spec_name() =~= seq!['_'] + PgType::Int4Range.spec_name());
            assert(t.spec_display_name() =~= PgType::Int4Range.spec_display_name() + "[]"@);
        },
        PgType::NumRangeArray => {
            reveal_strlit("_numrange");
            reveal_strlit("numrange");
            reveal_strlit("NUMRANGE[]");
            reveal_strlit("NUMRANGE");
            assert(t.spec_name() =~= seq!['_'] + PgType::NumRange.spec_name());
            assert(t.spec_display_name() =~= PgType::NumRange.spec_display_name() + "[]"@);
        },
        PgType::TsRangeArray => {
            reveal_strlit("_tsrange");
            reveal_strlit("tsrange");
            reveal_strlit("TSRANGE[]");
            reveal_strlit("TSRANGE");
            assert(t.spec_name() =~= seq!['_'] + PgType::TsRange.spec_name());
            assert(t.spec_display_name() =~= PgType::TsRange.spec_display_name() + "[]"@);
        },
        PgType::TstzRangeArray => {
            reveal_strlit("_tstzrange");
            reveal_strlit("tstzrange");
            reveal_strlit("TSTZRANGE[]");
            reveal_strlit("TSTZRANGE");
            assert(t.spec_name() =~= seq!['_'] + PgType::TstzRange.spec_name());
            assert(t.spec_display_name() =~= PgType::TstzRange.spec_display_name() + "[]"@);
        },
        PgType::DateRangeArray => {
            reveal_strlit("_daterange");
            reveal_strlit("daterange");
            reveal_strlit("DATERANGE[]");
            reveal_strlit("DATERANGE");
            assert(t.spec_name() =~= seq!['_'] + PgType::DateRange.spec_name());
            assert(t.spec_display_name() =~= PgType::DateRange.spec_display_name() + "[]"@);
        },
        PgType::Int8RangeArray => {
            reveal_strlit("_int8range");
            reveal_strlit("int8range");
            reveal_strlit("INT8RANGE[]");
            reveal_strlit("INT8RANGE");
            assert(t.spec_name() =~= seq!['_'] + PgType::Int8Range.spec_name());
            assert(t.spec_display_name() =~= PgType::Int8Range.spec_display_name() + "[]"@);
        },
        PgType::JsonpathArray => {
            reveal_strlit("_jsonpath");
            reveal_strlit("jsonpath");
            reveal_strlit("JSONPATH[]");
            reveal_strlit("JSONPATH");
            assert(t.spec_name() =~= seq!['_'] + PgType::Jsonpath.spec_name());
            assert(t.spec_display_name() =~= PgType::Jsonpath.spec_display_name() + "[]"@);
        },
        PgType::MoneyArray => {
            reveal_strlit("_money");
            reveal_strlit("money");
            reveal_strlit("MONEY[]");
            reveal_strlit("MONEY");
            assert(t.spec_name() =~= seq!['_'] + PgType::Money.spec_name());
            assert(t.spec_display_name() =~= PgType::Money.spec_display_name() + "[]"@);
        },
        _ => {},
    }
}

/// Every type compares equal to itself.
pub proof fn lemma_eq_reflexive(t: PgType)
    ensures
        pg_type_eq(t, t),
{
}

/// Whether two types compare equal does not depend on their order.
pub proof fn lemma_eq_symmetric(a: PgType, b: PgType)
    ensures
        pg_type_eq(a, b) == pg_type_eq(b, a),
{
    if eq_ignore_ascii_case_spec(a.spec_name(), b.spec_name()) {
        assert(eq_ignore_ascii_case_spec(b.spec_name(), a.spec_name()));
    }
}

/// Two built-in types compare equal exactly when they are the same type.
pub proof fn lemma_builtin_eq_is_identity(a: PgType, b: PgType)
    requires
        a.is_builtin(),
        b.is_builtin(),
    ensures
        pg_type_eq(a, b) <==> a == b,
{
    lemma_builtin_oids_distinct_all(a);
}

/// A type declared by OID compares equal to every type with that OID, and a type declared
/// by name compares equal to a built-in type exactly when their names match ignoring ASCII
/// case.
pub proof fn lemma_declarations_match(t: PgType, oid: Oid, name: String)
    ensures
        t.spec_try_oid() == Some(oid) ==> pg_type_eq(t, PgType::DeclareWithOid(oid)),
        t.is_builtin() ==> (pg_type_eq(PgType::DeclareWithName(name), t)
            <==> eq_ignore_ascii_case_spec(name@, t.spec_name())),
{
}

/// No two built-in types share a display name, not even ignoring ASCII case.
pub proof fn lemma_builtin_display_names_distinct(a: PgType, b: PgType)
    requires
        a.is_builtin(),
        b.is_builtin(),
        a != b,
    ensures
        a.spec_display_name() != b.spec_display_name(),
        !eq_ignore_ascii_case_spec(a.spec_display_name(), b.spec_display_name()),
{
    lemma_display_entry_of_builtin(a);
    lemma_display_entry_of_builtin(b);
    if eq_ignore_ascii_case_spec(a.spec_display_name(), b.spec_display_name()) {
        lemma_display_entry_respects_case(a.spec_display_name(), b.spec_display_name());
    }
}

/// No two built-in types have catalog names that match ignoring ASCII case.
pub proof fn lemma_builtin_names_distinct_ignoring_case(a: PgType, b: PgType)
    requires
        a.is_builtin(),
        b.is_builtin(),
        a != b,
    ensures
        !eq_ignore_ascii_case_spec(a.spec_name(), b.spec_name()),
{
    lemma_name_entry_of_builtin(a);
    lemma_name_entry_of_builtin(b);
    if eq_ignore_ascii_case_spec(a.spec_name(), b.spec_name()) {
        lemma_name_entry_respects_case(a.spec_name(), b.spec_name());
    }
}

/// A type declared by name compares equal to at most one built-in type.
pub proof fn lemma_named_declaration_matches_one_builtin(name: String, a: PgType, b: PgType)
    requires
        a.is_builtin(),
        b.is_builtin(),
        pg_type_eq(PgType::DeclareWithName(name), a),
        pg_type_eq(PgType::DeclareWithName(name), b),
    ensures
        a == b,
{
    lemma_name_entry_of_builtin(a);
    lemma_name_entry_of_builtin(b);
    lemma_name_entry_respects_case(name@, a.spec_name());
    lemma_name_entry_respects_case(name@, b.spec_name());
}


/// ASCII case folding identifies two characters exactly when they are the same character,
/// or one is an ASCII upper-case letter and the other the same letter in lower case.
pub proof fn lemma_ascii_fold_identifies_case(c: char, d: char)
    ensures
        ascii_fold(c) == ascii_fold(d) <==> (c == d || (65 <= (c as u32) <= 90 && (d as u32)
            == (c as u32) + 32) || (65 <= (d as u32) <= 90 && (c as u32) == (d as u32) + 32)),
{
}

/// The OID of a custom type is the OID it carries, and a declaration by OID has the OID it
/// was declared with; a declaration by name has none.
pub proof fn lemma_oid_of_custom_and_declared(ty: PgCustomType, oid: Oid, name: String)
    ensures
        PgType::Custom(Arc::new(ty)).spec_try_oid() == Some(ty.oid),
        PgType::DeclareWithOid(oid).spec_try_oid() == Some(oid),
        PgType::DeclareWithName(name).spec_try_oid() is None,
{
}

/// A custom type is named and displayed by the name it carries and has the kind it
/// carries; a declaration by name is named and displayed by that name; a declaration by
/// OID is named and displayed as `?`.
pub proof fn lemma_names_of_custom_and_declared(ty: PgCustomType, oid: Oid, name: String)
    ensures
        PgType::Custom(Arc::new(ty)).spec_name() == ty.name@,
        PgType::Custom(Arc::new(ty)).spec_display_name() == ty.name@,
        PgType::Custom(Arc::new(ty)).spec_kind() == ty.kind,
        PgType::DeclareWithName(name).spec_name() == name@,
        PgType::DeclareWithName(name).spec_display_name() == name@,
        PgType::DeclareWithOid(oid).spec_name() == seq!['?'],
        PgType::DeclareWithOid(oid).spec_display_name() == seq!['?'],
{
    reveal_strlit("?");
}

/// Two types that both have an OID compare equal exactly when the OIDs are the same,
/// whatever their names and kinds.
pub proof fn lemma_eq_by_oid(a: PgType, b: PgType, x: Oid, y: Oid)
    requires
        a.spec_try_oid() == Some(x),
        b.spec_try_oid() == Some(y),
    ensures
        pg_type_eq(a, b) <==> x == y,
{
}

/// A type declared by name compares equal to a type declared by OID, in either order.
pub proof fn lemma_name_and_oid_declarations_match(name: String, oid: Oid)
    ensures
        pg_type_eq(PgType::DeclareWithName(name), PgType::DeclareWithOid(oid)),
        pg_type_eq(PgType::DeclareWithOid(oid), PgType::DeclareWithName(name)),
{
}

/// A type declared by name compares equal to any type other than a declaration by OID
/// (built-in, custom, or declared by name) exactly when the declared name matches that
/// type's catalog name ignoring ASCII case; in either order.
pub proof fn lemma_named_declaration_matches_by_name(name: String, t: PgType)
    requires
        !(t is DeclareWithOid),
    ensures
        pg_type_eq(PgType::DeclareWithName(name), t) <==> eq_ignore_ascii_case_spec(
            name@,
            t.spec_name(),
        ),
        pg_type_eq(t, PgType::DeclareWithName(name)) <==> eq_ignore_ascii_case_spec(
            t.spec_name(),
            name@,
        ),
        t is Custom ==> (pg_type_eq(PgType::DeclareWithName(name), t)
            <==> eq_ignore_ascii_case_spec(name@, t->Custom_0.name@)),
{
}

/// Exactly six built-in types are ranges, each over its own element type: INT4RANGE over
/// INT4, NUMRANGE over NUMERIC, TSRANGE over TIMESTAMP, TSTZRANGE over TIMESTAMPTZ,
/// DATERANGE over DATE and INT8RANGE over INT8.
pub proof fn lemma_builtin_ranges(t: PgType)
    requires
        t.is_builtin(),
    ensures
        t.spec_kind() is Range <==> (t is Int4Range || t is NumRange || t is TsRange
            || t is TstzRange || t is DateRange || t is Int8Range),
        t is Int4Range ==> t.spec_kind() == PgTypeKind::Range(PgTypeInfo(PgType::Int4)),
        t is NumRange ==> t.spec_kind() == PgTypeKind::Range(PgTypeInfo(PgType::Numeric)),
        t is TsRange ==> t.spec_kind() == PgTypeKind::Range(PgTypeInfo(PgType::Timestamp)),
        t is TstzRange ==> t.spec_kind() == PgTypeKind::Range(PgTypeInfo(PgType::Timestamptz)),
        t is DateRange ==> t.spec_kind() == PgTypeKind::Range(PgTypeInfo(PgType::Date)),
        t is Int8Range ==> t.spec_kind() == PgTypeKind::Range(PgTypeInfo(PgType::Int8)),
{
}

/// A built-in type is an array exactly when its catalog name begins with `_`; it is simple
/// exactly when it is neither an array, a range, nor `void`.
pub proof fn lemma_builtin_arrays_by_name(t: PgType)
    requires
        t.is_builtin(),
    ensures
        t.spec_name().len() > 0,
        t.spec_kind() is Array <==> t.spec_name()[0] == '_',
        t.spec_kind() is Simple <==> !(t.spec_kind() is Array || t.spec_kind() is Range
            || t is Void),
{
    lemma_array_underscore(t);
}

/// The optional feature that a type with a known OID needs, read off the OID alone.
pub open spec fn feature_of_oid(oid: u32) -> Option<Seq<char>> {
    if oid == 1082 || oid == 1083 || oid == 1114 || oid == 1184 || oid == 1182 || oid == 1183
        || oid == 1115 || oid == 1185 {
        Some("time"@)
    } else if oid == 2950 || oid == 2951 {
        Some("uuid"@)
    } else if oid == 114 || oid == 3802 || oid == 199 || oid == 3807 {
        Some("json"@)
    } else if oid == 650 || oid == 869 || oid == 651 || oid == 1041 {
        Some("ipnetwork"@)
    } else if oid == 829 {
        Some("mac_address"@)
    } else if oid == 1700 || oid == 1231 {
        Some("bigdecimal"@)
    } else {
        None
    }
}

/// The optional feature that a type declared by name needs, read off the name: the
/// catalog names of the gated types, matched ignoring ASCII case.
pub open spec fn feature_of_name(name: Seq<char>) -> Option<Seq<char>> {
    if eq_ignore_ascii_case_spec("date"@, name) || eq_ignore_ascii_case_spec("time"@, name)
        || eq_ignore_ascii_case_spec("timestamp"@, name) || eq_ignore_ascii_case_spec(
        "timestamptz"@,
        name,
    ) || eq_ignore_ascii_case_spec("_date"@, name) || eq_ignore_ascii_case_spec("_time"@, name)
        || eq_ignore_ascii_case_spec("_timestamp"@, name) || eq_ignore_ascii_case_spec(
        "_timestamptz"@,
        name,
    ) {
        Some("time"@)
    } else if eq_ignore_ascii_case_spec("uuid"@, name) || eq_ignore_ascii_case_spec(
        "_uuid"@,
        name,
    ) {
        Some("uuid"@)
    } else if eq_ignore_ascii_case_spec("json"@, name) || eq_ignore_ascii_case_spec(
        "jsonb"@,
        name,
    ) || eq_ignore_ascii_case_spec("_json"@, name) || eq_ignore_ascii_case_spec(
        "_jsonb"@,
        name,
    ) {
        Some("json"@)
    } else if eq_ignore_ascii_case_spec("cidr"@, name) || eq_ignore_ascii_case_spec(
        "inet"@,
        name,
    ) || eq_ignore_ascii_case_spec("_cidr"@, name) || eq_ignore_ascii_case_spec(
        "_inet"@,
        name,
    ) {
        Some("ipnetwork"@)
    } else if eq_ignore_ascii_case_spec("macaddr"@, name) {
        Some("mac_address"@)
    } else if eq_ignore_ascii_case_spec("numeric"@, name) || eq_ignore_ascii_case_spec(
        "_numeric"@,
        name,
    ) {
        Some("bigdecimal"@)
    } else {
        None
    }
}

/// The feature gate of a type with an OID (built-in, custom or declared by OID) depends
/// on that OID alone: the date and time types (OIDs 1082, 1083, 1114, 1184 and their arrays
/// 1182, 1183, 1115, 1185) need `time`; UUID (2950, 2951) `uuid`; JSON (114, 3802, 199, 3807)
/// `json`; CIDR and INET (650, 869, 651, 1041) `ipnetwork`; MACADDR (829) `mac_address`;
/// NUMERIC (1700, 1231) `bigdecimal`; every other OID none.
pub proof fn lemma_feature_gate_by_oid(t: PgType, oid: Oid)
    requires
        t.spec_try_oid() == Some(oid),
    ensures
        feature_gate(t) == feature_of_oid(oid.0),
{
    lemma_gate_groups(t);
}

/// The feature gate of a type declared by name depends on the name alone, matched against
/// the catalog names of the gated types ignoring ASCII case.
pub proof fn lemma_feature_gate_by_name(name: String)
    ensures
        feature_gate(PgType::DeclareWithName(name)) == feature_of_name(name@),
{
    lemma_gate_groups(PgType::DeclareWithName(name));
}

/// Each group of gated types, unfolded member by member.
proof fn lemma_gate_groups(t: PgType)
    ensures
        eq_any(t, time_types()) == (pg_type_eq(PgType::Date, t) || pg_type_eq(PgType::Time, t)
            || pg_type_eq(PgType::Timestamp, t) || pg_type_eq(PgType::Timestamptz, t)
            || pg_type_eq(PgType::DateArray, t) || pg_type_eq(PgType::TimeArray, t)
            || pg_type_eq(PgType::TimestampArray, t) || pg_type_eq(PgType::TimestamptzArray, t)),
        eq_any(t, uuid_types()) == (pg_type_eq(PgType::Uuid, t) || pg_type_eq(
            PgType::UuidArray,
            t,
        )),
        eq_any(t, json_types()) == (pg_type_eq(PgType::Json, t) || pg_type_eq(PgType::Jsonb, t)
            || pg_type_eq(PgType::JsonArray, t) || pg_type_eq(PgType::JsonbArray, t)),
        eq_any(t, network_types()) == (pg_type_eq(PgType::Cidr, t) || pg_type_eq(
            PgType::Inet,
            t,
        ) || pg_type_eq(PgType::CidrArray, t) || pg_type_eq(PgType::InetArray, t)),
        eq_any(t, mac_address_types()) == pg_type_eq(PgType::Macaddr, t),
        eq_any(t, decimal_types()) == (pg_type_eq(PgType::Numeric, t) || pg_type_eq(
            PgType::NumericArray,
            t,
        )),
{
    lemma_eq_any_members(t, time_types());
    lemma_eq_any_members(t, uuid_types());
    lemma_eq_any_members(t, json_types());
    lemma_eq_any_members(t, network_types());
    lemma_eq_any_members(t, mac_address_types());
    assert(mac_address_types()[0] == PgType::Macaddr);
    lemma_eq_any_members(t, decimal_types());
}

/// Membership in a group is comparison with one of its members.
proof fn lemma_eq_any_members(t: PgType, cands: Seq<PgType>)
    ensures
        eq_any(t, cands) <==> exists|i: int| 0 <= i < cands.len() && #[trigger] pg_type_eq(cands[i], t),
        forall|i: int| 0 <= i < cands.len() && #[trigger] pg_type_eq(cands[i], t) ==> eq_any(t, cands),
{
}

/// A built-in type's catalog name begins with `_` exactly when the type is an array,
/// checked type by type on the revealed names.
proof fn lemma_array_underscore(t: PgType)
    requires
        t.is_builtin(),
    ensures
        t.spec_name().len() > 0,
        t.spec_kind() is Array <==> t.spec_name()[0] == '_',
{
    match t {
        PgType::Bool => reveal_strlit("bool"),
        PgType::Bytea => reveal_strlit("bytea"),
        PgType::Char => reveal_strlit("char"),
        PgType::Name => reveal_strlit("name"),
        PgType::Int8 => reveal_strlit("int8"),
        PgType::Int2 => reveal_strlit("int2"),
        PgType::Int4 => reveal_strlit("int4"),
        PgType::Text => reveal_strlit("text"),
        PgType::Oid => reveal_strlit("oid"),
        PgType::Json => reveal_strlit("json"),
        PgType::JsonArray => reveal_strlit("_json"),
        PgType::Point => reveal_strlit("point"),
        PgType::Lseg => reveal_strlit("lseg"),
        PgType::Path => reveal_strlit("path"),
        PgType::Box => reveal_strlit("box"),
        PgType::Polygon => reveal_strlit("polygon"),
        PgType::Line => reveal_strlit("line"),
        PgType::LineArray => reveal_strlit("_line"),
        PgType::Cidr => reveal_strlit("cidr"),
        PgType::CidrArray => reveal_strlit("_cidr"),
        PgType::Float4 => reveal_strlit("float4"),
        PgType::Float8 => reveal_strlit("float8"),
        PgType::Unknown => reveal_strlit("unknown"),
        PgType::Circle => reveal_strlit("circle"),
        PgType::CircleArray => reveal_strlit("_circle"),
        PgType::Macaddr8 => reveal_strlit("macaddr8"),
        PgType::Macaddr8Array => reveal_strlit("_macaddr8"),
        PgType::Macaddr => reveal_strlit("macaddr"),
        PgType::Inet => reveal_strlit("inet"),
        PgType::BoolArray => reveal_strlit("_bool"),
        PgType::ByteaArray => reveal_strlit("_bytea"),
        PgType::CharArray => reveal_strlit("_char"),
        PgType::NameArray => reveal_strlit("_name"),
        PgType::Int2Array => reveal_strlit("_int2"),
        PgType::Int4Array => reveal_strlit("_int4"),
        PgType::TextArray => reveal_strlit("_text"),
        PgType::BpcharArray => reveal_strlit("_bpchar"),
        PgType::VarcharArray => reveal_strlit("_varchar"),
        PgType::Int8Array => reveal_strlit("_int8"),
        PgType::PointArray => reveal_strlit("_point"),
        PgType::LsegArray => reveal_strlit("_lseg"),
        PgType::PathArray => reveal_strlit("_path"),
        PgType::BoxArray => reveal_strlit("_box"),
        PgType::Float4Array => reveal_strlit("_float4"),
        PgType::Float8Array => reveal_strlit("_float8"),
        PgType::PolygonArray => reveal_strlit("_polygon"),
        PgType::OidArray => reveal_strlit("_oid"),
        PgType::MacaddrArray => reveal_strlit("_macaddr"),
        PgType::InetArray => reveal_strlit("_inet"),
        PgType::Bpchar => reveal_strlit("bpchar"),
        PgType::Varchar => reveal_strlit("varchar"),
        PgType::Date => reveal_strlit("date"),
        PgType::Time => reveal_strlit("time"),
        PgType::Timestamp => reveal_strlit("timestamp"),
        PgType::TimestampArray => reveal_strlit("_timestamp"),
        PgType::DateArray => reveal_strlit("_date"),
        PgType::TimeArray => reveal_strlit("_time"),
        PgType::Timestamptz => reveal_strlit("timestamptz"),
        PgType::TimestamptzArray => reveal_strlit("_timestamptz"),
        PgType::Interval => reveal_strlit("interval"),
        PgType::IntervalArray => reveal_strlit("_interval"),
        PgType::NumericArray => reveal_strlit("_numeric"),
        PgType::Timetz => reveal_strlit("timetz"),
        PgType::TimetzArray => reveal_strlit("_timetz"),
        PgType::Bit => reveal_strlit("bit"),
        PgType::BitArray => reveal_strlit("_bit"),
        PgType::Varbit => reveal_strlit("varbit"),
        PgType::VarbitArray => reveal_strlit("_varbit"),
        PgType::Numeric => reveal_strlit("numeric"),
        PgType::Record => reveal_strlit("record"),
        PgType::RecordArray => reveal_strlit("_record"),
        PgType::Uuid => reveal_strlit("uuid"),
        PgType::UuidArray => reveal_strlit("_uuid"),
        PgType::Jsonb => reveal_strlit("jsonb"),
        PgType::JsonbArray => reveal_strlit("_jsonb"),
        PgType::Int4Range => reveal_strlit("int4range"),
        PgType::Int4RangeArray => reveal_strlit("_int4range"),
        PgType::NumRange => reveal_strlit("numrange"),
        PgType::NumRangeArray => reveal_strlit("_numrange"),
        PgType::TsRange => reveal_strlit("tsrange"),
        PgType::TsRangeArray => reveal_strlit("_tsrange"),
        PgType::TstzRange => reveal_strlit("tstzrange"),
        PgType::TstzRangeArray => reveal_strlit("_tstzrange"),
        PgType::DateRange => reveal_strlit("daterange"),
        PgType::DateRangeArray => reveal_strlit("_daterange"),
        PgType::Int8Range => reveal_strlit("int8range"),
        PgType::Int8RangeArray => reveal_strlit("_int8range"),
        PgType::Jsonpath => reveal_strlit("jsonpath"),
        PgType::JsonpathArray => reveal_strlit("_jsonpath"),
        PgType::Money => reveal_strlit("money"),
        PgType::MoneyArray => reveal_strlit("_money"),
        PgType::Void => reveal_strlit("void"),
        _ => {},
    }
}

/// A built-in type that is not an array is displayed by its catalog name in ASCII upper
/// case, except for the two character types `char` (shown as `"CHAR"`) and `bpchar` (shown
/// as `CHAR`).
pub proof fn lemma_display_is_upper_case_name(t: PgType)
    requires
        t.is_builtin(),
        !(t.spec_kind() is Array),
        !(t is Char),
        !(t is Bpchar),
    ensures
        eq_ignore_ascii_case_spec(t.spec_display_name(), t.spec_name()),
        forall|i: int|
            0 <= i < t.spec_display_name().len() ==> !(97 <= #[trigger] (
            t.spec_display_name()[i] as u32) <= 122),
{
    match t {
        PgType::Bool => {
            reveal_strlit("bool");
            reveal_strlit("BOOL");
        },
        PgType::Bytea => {
            reveal_strlit("bytea");
            reveal_strlit("BYTEA");
        },
        PgType::Name => {
            reveal_strlit("name");
            reveal_strlit("NAME");
        },
        PgType::Int8 => {
            reveal_strlit("int8");
            reveal_strlit("INT8");
        },
        PgType::Int2 => {
            reveal_strlit("int2");
            reveal_strlit("INT2");
        },
        PgType::Int4 => {
            reveal_strlit("int4");
            reveal_strlit("INT4");
        },
        PgType::Text => {
            reveal_strlit("text");
            reveal_strlit("TEXT");
        },
        PgType::Oid => {
            reveal_strlit("oid");
            reveal_strlit("OID");
        },
        PgType::Json => {
            reveal_strlit("json");
            reveal_strlit("JSON");
        },
        PgType::Point => {
            reveal_strlit("point");
            reveal_strlit("POINT");
        },
        PgType::Lseg => {
            reveal_strlit("lseg");
            reveal_strlit("LSEG");
        },
        PgType::Path => {
            reveal_strlit("path");
            reveal_strlit("PATH");
        },
        PgType::Box => {
            reveal_strlit("box");
            reveal_strlit("BOX");
        },
        PgType::Polygon => {
            reveal_strlit("polygon");
            reveal_strlit("POLYGON");
        },
        PgType::Line => {
            reveal_strlit("line");
            reveal_strlit("LINE");
        },
        PgType::Cidr => {
            reveal_strlit("cidr");
            reveal_strlit("CIDR");
        },
        PgType::Float4 => {
            reveal_strlit("float4");
            reveal_strlit("FLOAT4");
        },
        PgType::Float8 => {
            reveal_strlit("float8");
            reveal_strlit("FLOAT8");
        },
        PgType::Unknown => {
            reveal_strlit("unknown");
            reveal_strlit("UNKNOWN");
        },
        PgType::Circle => {
            reveal_strlit("circle");
            reveal_strlit("CIRCLE");
        },
        PgType::Macaddr8 => {
            reveal_strlit("macaddr8");
            reveal_strlit("MACADDR8");
        },
        PgType::Macaddr => {
            reveal_strlit("macaddr");
            reveal_strlit("MACADDR");
        },
        PgType::Inet => {
            reveal_strlit("inet");
            reveal_strlit("INET");
        },
        PgType::Varchar => {
            reveal_strlit("varchar");
            reveal_strlit("VARCHAR");
        },
        PgType::Date => {
            reveal_strlit("date");
            reveal_strlit("DATE");
        },
        PgType::Time => {
            reveal_strlit("time");
            reveal_strlit("TIME");
        },
        PgType::Timestamp => {
            reveal_strlit("timestamp");
            reveal_strlit("TIMESTAMP");
        },
        PgType::Timestamptz => {
            reveal_strlit("timestamptz");
            reveal_strlit("TIMESTAMPTZ");
        },
        PgType::Interval => {
            reveal_strlit("interval");
            reveal_strlit("INTERVAL");
        },
        PgType::Timetz => {
            reveal_strlit("timetz");
            reveal_strlit("TIMETZ");
        },
        PgType::Bit => {
            reveal_strlit("bit");
            reveal_strlit("BIT");
        },
        PgType::Varbit => {
            reveal_strlit("varbit");
            reveal_strlit("VARBIT");
        },
        PgType::Numeric => {
            reveal_strlit("numeric");
            reveal_strlit("NUMERIC");
        },
        PgType::Record => {
            reveal_strlit("record");
            reveal_strlit("RECORD");
        },
        PgType::Uuid => {
            reveal_strlit("uuid");
            reveal_strlit("UUID");
        },
        PgType::Jsonb => {
            reveal_strlit("jsonb");
            reveal_strlit("JSONB");
        },
        PgType::Int4Range => {
            reveal_strlit("int4range");
            reveal_strlit("INT4RANGE");
        },
        PgType::NumRange => {
            reveal_strlit("numrange");
            reveal_strlit("NUMRANGE");
        },
        PgType::TsRange => {
            reveal_strlit("tsrange");
            reveal_strlit("TSRANGE");
        },
        PgType::TstzRange => {
            reveal_strlit("tstzrange");
            reveal_strlit("TSTZRANGE");
        },
        PgType::DateRange => {
            reveal_strlit("daterange");
            reveal_strlit("DATERANGE");
        },
        PgType::Int8Range => {
            reveal_strlit("int8range");
            reveal_strlit("INT8RANGE");
        },
        PgType::Jsonpath => {
            reveal_strlit("jsonpath");
            reveal_strlit("JSONPATH");
        },
        PgType::Money => {
            reveal_strlit("money");
            reveal_strlit("MONEY");
        },
        PgType::Void => {
            reveal_strlit("void");
            reveal_strlit("VOID");
        },
        _ => {},
    }
}

} // verus!
