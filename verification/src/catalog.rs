use vstd::prelude::*;

use crate::oid::Oid;
use crate::type_info::{PgType, PgTypeInfo, PgTypeKind};

verus! {

// The catalog of the built-in PostgreSQL types that are known without asking the server:
// each one's OID in `pg_type`, its catalog name, the name shown to users and its kind.
impl PgType {
    /// A type that is only declared by name or by OID and not yet resolved against a
    /// server's catalog.
    pub open spec fn is_declaration(&self) -> bool {
        self is DeclareWithName || self is DeclareWithOid
    }

    /// One of the built-in types, whose OID is fixed by PostgreSQL.
    pub open spec fn is_builtin(&self) -> bool {
        !self.is_declaration() && !(self is Custom)
    }

    /// The OID of the type, where it is known: fixed for a built-in type, resolved for a
    /// custom type, given for a declaration by OID; none for a declaration by name.
    pub open spec fn spec_try_oid(&self) -> Option<Oid> {
        match self {
            PgType::Bool => Some(Oid(16)),
            PgType::Bytea => Some(Oid(17)),
            PgType::Char => Some(Oid(18)),
            PgType::Name => Some(Oid(19)),
            PgType::Int8 => Some(Oid(20)),
            PgType::Int2 => Some(Oid(21)),
            PgType::Int4 => Some(Oid(23)),
            PgType::Text => Some(Oid(25)),
            PgType::Oid => Some(Oid(26)),
            PgType::Json => Some(Oid(114)),
            PgType::JsonArray => Some(Oid(199)),
            PgType::Point => Some(Oid(600)),
            PgType::Lseg => Some(Oid(601)),
            PgType::Path => Some(Oid(602)),
            PgType::Box => Some(Oid(603)),
            PgType::Polygon => Some(Oid(604)),
            PgType::Line => Some(Oid(628)),
            PgType::LineArray => Some(Oid(629)),
            PgType::Cidr => Some(Oid(650)),
            PgType::CidrArray => Some(Oid(651)),
            PgType::Float4 => Some(Oid(700)),
            PgType::Float8 => Some(Oid(701)),
            PgType::Unknown => Some(Oid(705)),
            PgType::Circle => Some(Oid(718)),
            PgType::CircleArray => Some(Oid(719)),
            PgType::Macaddr8 => Some(Oid(774)),
            PgType::Macaddr8Array => Some(Oid(775)),
            PgType::Macaddr => Some(Oid(829)),
            PgType::Inet => Some(Oid(869)),
            PgType::BoolArray => Some(Oid(1000)),
            PgType::ByteaArray => Some(Oid(1001)),
            PgType::CharArray => Some(Oid(1002)),
            PgType::NameArray => Some(Oid(1003)),
            PgType::Int2Array => Some(Oid(1005)),
            PgType::Int4Array => Some(Oid(1007)),
            PgType::TextArray => Some(Oid(1009)),
            PgType::BpcharArray => Some(Oid(1014)),
            PgType::VarcharArray => Some(Oid(1015)),
            PgType::Int8Array => Some(Oid(1016)),
            PgType::PointArray => Some(Oid(1017)),
            PgType::LsegArray => Some(Oid(1018)),
            PgType::PathArray => Some(Oid(1019)),
            PgType::BoxArray => Some(Oid(1020)),
            PgType::Float4Array => Some(Oid(1021)),
            PgType::Float8Array => Some(Oid(1022)),
            PgType::PolygonArray => Some(Oid(1027)),
            PgType::OidArray => Some(Oid(1028)),
            PgType::MacaddrArray => Some(Oid(1040)),
            PgType::InetArray => Some(Oid(1041)),
            PgType::Bpchar => Some(Oid(1042)),
            PgType::Varchar => Some(Oid(1043)),
            PgType::Date => Some(Oid(1082)),
            PgType::Time => Some(Oid(1083)),
            PgType::Timestamp => Some(Oid(1114)),
            PgType::TimestampArray => Some(Oid(1115)),
            PgType::DateArray => Some(Oid(1182)),
            PgType::TimeArray => Some(Oid(1183)),
            PgType::Timestamptz => Some(Oid(1184)),
            PgType::TimestamptzArray => Some(Oid(1185)),
            PgType::Interval => Some(Oid(1186)),
            PgType::IntervalArray => Some(Oid(1187)),
            PgType::NumericArray => Some(Oid(1231)),
            PgType::Timetz => Some(Oid(1266)),
            PgType::TimetzArray => Some(Oid(1270)),
            PgType::Bit => Some(Oid(1560)),
            PgType::BitArray => Some(Oid(1561)),
            PgType::Varbit => Some(Oid(1562)),
            PgType::VarbitArray => Some(Oid(1563)),
            PgType::Numeric => Some(Oid(1700)),
            PgType::Record => Some(Oid(2249)),
            PgType::RecordArray => Some(Oid(2287)),
            PgType::Uuid => Some(Oid(2950)),
            PgType::UuidArray => Some(Oid(2951)),
            PgType::Jsonb => Some(Oid(3802)),
            PgType::JsonbArray => Some(Oid(3807)),
            PgType::Int4Range => Some(Oid(3904)),
            PgType::Int4RangeArray => Some(Oid(3905)),
            PgType::NumRange => Some(Oid(3906)),
            PgType::NumRangeArray => Some(Oid(3907)),
            PgType::TsRange => Some(Oid(3908)),
            PgType::TsRangeArray => Some(Oid(3909)),
            PgType::TstzRange => Some(Oid(3910)),
            PgType::TstzRangeArray => Some(Oid(3911)),
            PgType::DateRange => Some(Oid(3912)),
            PgType::DateRangeArray => Some(Oid(3913)),
            PgType::Int8Range => Some(Oid(3926)),
            PgType::Int8RangeArray => Some(Oid(3927)),
            PgType::Jsonpath => Some(Oid(4072)),
            PgType::JsonpathArray => Some(Oid(4073)),
            PgType::Money => Some(Oid(790)),
            PgType::MoneyArray => Some(Oid(791)),
            PgType::Void => Some(Oid(2278)),
            PgType::Custom(ty) => Some(ty.oid),
            PgType::DeclareWithOid(oid) => Some(*oid),
            PgType::DeclareWithName(_) => None,
        }
    }

    /// The name shown to users (upper case, arrays written with `[]`).
    pub open spec fn spec_display_name(&self) -> Seq<char> {
        match self {
            PgType::Bool => "BOOL"@,
            PgType::Bytea => "BYTEA"@,
            PgType::Char => "\"CHAR\""@,
            PgType::Name => "NAME"@,
            PgType::Int8 => "INT8"@,
            PgType::Int2 => "INT2"@,
            PgType::Int4 => "INT4"@,
            PgType::Text => "TEXT"@,
            PgType::Oid => "OID"@,
            PgType::Json => "JSON"@,
            PgType::JsonArray => "JSON[]"@,
            PgType::Point => "POINT"@,
            PgType::Lseg => "LSEG"@,
            PgType::Path => "PATH"@,
            PgType::Box => "BOX"@,
            PgType::Polygon => "POLYGON"@,
            PgType::Line => "LINE"@,
            PgType::LineArray => "LINE[]"@,
            PgType::Cidr => "CIDR"@,
            PgType::CidrArray => "CIDR[]"@,
            PgType::Float4 => "FLOAT4"@,
            PgType::Float8 => "FLOAT8"@,
            PgType::Unknown => "UNKNOWN"@,
            PgType::Circle => "CIRCLE"@,
            PgType::CircleArray => "CIRCLE[]"@,
            PgType::Macaddr8 => "MACADDR8"@,
            PgType::Macaddr8Array => "MACADDR8[]"@,
            PgType::Macaddr => "MACADDR"@,
            PgType::Inet => "INET"@,
            PgType::BoolArray => "BOOL[]"@,
            PgType::ByteaArray => "BYTEA[]"@,
            PgType::CharArray => "\"CHAR\"[]"@,
            PgType::NameArray => "NAME[]"@,
            PgType::Int2Array => "INT2[]"@,
            PgType::Int4Array => "INT4[]"@,
            PgType::TextArray => "TEXT[]"@,
            PgType::BpcharArray => "CHAR[]"@,
            PgType::VarcharArray => "VARCHAR[]"@,
            PgType::Int8Array => "INT8[]"@,
            PgType::PointArray => "POINT[]"@,
            PgType::LsegArray => "LSEG[]"@,
            PgType::PathArray => "PATH[]"@,
            PgType::BoxArray => "BOX[]"@,
            PgType::Float4Array => "FLOAT4[]"@,
            PgType::Float8Array => "FLOAT8[]"@,
            PgType::PolygonArray => "POLYGON[]"@,
            PgType::OidArray => "OID[]"@,
            PgType::MacaddrArray => "MACADDR[]"@,
            PgType::InetArray => "INET[]"@,
            PgType::Bpchar => "CHAR"@,
            PgType::Varchar => "VARCHAR"@,
            PgType::Date => "DATE"@,
            PgType::Time => "TIME"@,
            PgType::Timestamp => "TIMESTAMP"@,
            PgType::TimestampArray => "TIMESTAMP[]"@,
            PgType::DateArray => "DATE[]"@,
            PgType::TimeArray => "TIME[]"@,
            PgType::Timestamptz => "TIMESTAMPTZ"@,
            PgType::TimestamptzArray => "TIMESTAMPTZ[]"@,
            PgType::Interval => "INTERVAL"@,
            PgType::IntervalArray => "INTERVAL[]"@,
            PgType::NumericArray => "NUMERIC[]"@,
            PgType::Timetz => "TIMETZ"@,
            PgType::TimetzArray => "TIMETZ[]"@,
            PgType::Bit => "BIT"@,
            PgType::BitArray => "BIT[]"@,
            PgType::Varbit => "VARBIT"@,
            PgType::VarbitArray => "VARBIT[]"@,
            PgType::Numeric => "NUMERIC"@,
            PgType::Record => "RECORD"@,
            PgType::RecordArray => "RECORD[]"@,
            PgType::Uuid => "UUID"@,
            PgType::UuidArray => "UUID[]"@,
            PgType::Jsonb => "JSONB"@,
            PgType::JsonbArray => "JSONB[]"@,
            PgType::Int4Range => "INT4RANGE"@,
            PgType::Int4RangeArray => "INT4RANGE[]"@,
            PgType::NumRange => "NUMRANGE"@,
            PgType::NumRangeArray => "NUMRANGE[]"@,
            PgType::TsRange => "TSRANGE"@,
            PgType::TsRangeArray => "TSRANGE[]"@,
            PgType::TstzRange => "TSTZRANGE"@,
            PgType::TstzRangeArray => "TSTZRANGE[]"@,
            PgType::DateRange => "DATERANGE"@,
            PgType::DateRangeArray => "DATERANGE[]"@,
            PgType::Int8Range => "INT8RANGE"@,
            PgType::Int8RangeArray => "INT8RANGE[]"@,
            PgType::Jsonpath => "JSONPATH"@,
            PgType::JsonpathArray => "JSONPATH[]"@,
            PgType::Money => "MONEY"@,
            PgType::MoneyArray => "MONEY[]"@,
            PgType::Void => "VOID"@,
            PgType::Custom(ty) => ty.name@,
            PgType::DeclareWithOid(_) => "?"@,
            PgType::DeclareWithName(name) => name@,
        }
    }

    /// The name of the type in `pg_type` (arrays are prefixed with `_`).
    pub open spec fn spec_name(&self) -> Seq<char> {
        match self {
            PgType::Bool => "bool"@,
            PgType::Bytea => "bytea"@,
            PgType::Char => "char"@,
            PgType::Name => "name"@,
            PgType::Int8 => "int8"@,
            PgType::Int2 => "int2"@,
            PgType::Int4 => "int4"@,
            PgType::Text => "text"@,
            PgType::Oid => "oid"@,
            PgType::Json => "json"@,
            PgType::JsonArray => "_json"@,
            PgType::Point => "point"@,
            PgType::Lseg => "lseg"@,
            PgType::Path => "path"@,
            PgType::Box => "box"@,
            PgType::Polygon => "polygon"@,
            PgType::Line => "line"@,
            PgType::LineArray => "_line"@,
            PgType::Cidr => "cidr"@,
            PgType::CidrArray => "_cidr"@,
            PgType::Float4 => "float4"@,
            PgType::Float8 => "float8"@,
            PgType::Unknown => "unknown"@,
            PgType::Circle => "circle"@,
            PgType::CircleArray => "_circle"@,
            PgType::Macaddr8 => "macaddr8"@,
            PgType::Macaddr8Array => "_macaddr8"@,
            PgType::Macaddr => "macaddr"@,
            PgType::Inet => "inet"@,
            PgType::BoolArray => "_bool"@,
            PgType::ByteaArray => "_bytea"@,
            PgType::CharArray => "_char"@,
            PgType::NameArray => "_name"@,
            PgType::Int2Array => "_int2"@,
            PgType::Int4Array => "_int4"@,
            PgType::TextArray => "_text"@,
            PgType::BpcharArray => "_bpchar"@,
            PgType::VarcharArray => "_varchar"@,
            PgType::Int8Array => "_int8"@,
            PgType::PointArray => "_point"@,
            PgType::LsegArray => "_lseg"@,
            PgType::PathArray => "_path"@,
            PgType::BoxArray => "_box"@,
            PgType::Float4Array => "_float4"@,
            PgType::Float8Array => "_float8"@,
            PgType::PolygonArray => "_polygon"@,
            PgType::OidArray => "_oid"@,
            PgType::MacaddrArray => "_macaddr"@,
            PgType::InetArray => "_inet"@,
            PgType::Bpchar => "bpchar"@,
            PgType::Varchar => "varchar"@,
            PgType::Date => "date"@,
            PgType::Time => "time"@,
            PgType::Timestamp => "timestamp"@,
            PgType::TimestampArray => "_timestamp"@,
            PgType::DateArray => "_date"@,
            PgType::TimeArray => "_time"@,
            PgType::Timestamptz => "timestamptz"@,
            PgType::TimestamptzArray => "_timestamptz"@,
            PgType::Interval => "interval"@,
            PgType::IntervalArray => "_interval"@,
            PgType::NumericArray => "_numeric"@,
            PgType::Timetz => "timetz"@,
            PgType::TimetzArray => "_timetz"@,
            PgType::Bit => "bit"@,
            PgType::BitArray => "_bit"@,
            PgType::Varbit => "varbit"@,
            PgType::VarbitArray => "_varbit"@,
            PgType::Numeric => "numeric"@,
            PgType::Record => "record"@,
            PgType::RecordArray => "_record"@,
            PgType::Uuid => "uuid"@,
            PgType::UuidArray => "_uuid"@,
            PgType::Jsonb => "jsonb"@,
            PgType::JsonbArray => "_jsonb"@,
            PgType::Int4Range => "int4range"@,
            PgType::Int4RangeArray => "_int4range"@,
            PgType::NumRange => "numrange"@,
            PgType::NumRangeArray => "_numrange"@,
            PgType::TsRange => "tsrange"@,
            PgType::TsRangeArray => "_tsrange"@,
            PgType::TstzRange => "tstzrange"@,
            PgType::TstzRangeArray => "_tstzrange"@,
            PgType::DateRange => "daterange"@,
            PgType::DateRangeArray => "_daterange"@,
            PgType::Int8Range => "int8range"@,
            PgType::Int8RangeArray => "_int8range"@,
            PgType::Jsonpath => "jsonpath"@,
            PgType::JsonpathArray => "_jsonpath"@,
            PgType::Money => "money"@,
            PgType::MoneyArray => "_money"@,
            PgType::Void => "void"@,
            PgType::Custom(ty) => ty.name@,
            PgType::DeclareWithOid(_) => "?"@,
            PgType::DeclareWithName(name) => name@,
        }
    }

    /// The kind of a resolved type; a declaration has none.
    pub open spec fn spec_kind(&self) -> PgTypeKind {
        match self {
            PgType::Bool => PgTypeKind::Simple,
            PgType::Bytea => PgTypeKind::Simple,
            PgType::Char => PgTypeKind::Simple,
            PgType::Name => PgTypeKind::Simple,
            PgType::Int8 => PgTypeKind::Simple,
            PgType::Int2 => PgTypeKind::Simple,
            PgType::Int4 => PgTypeKind::Simple,
            PgType::Text => PgTypeKind::Simple,
            PgType::Oid => PgTypeKind::Simple,
            PgType::Json => PgTypeKind::Simple,
            PgType::JsonArray => PgTypeKind::Array(PgTypeInfo(PgType::Json)),
            PgType::Point => PgTypeKind::Simple,
            PgType::Lseg => PgTypeKind::Simple,
            PgType::Path => PgTypeKind::Simple,
            PgType::Box => PgTypeKind::Simple,
            PgType::Polygon => PgTypeKind::Simple,
            PgType::Line => PgTypeKind::Simple,
            PgType::LineArray => PgTypeKind::Array(PgTypeInfo(PgType::Line)),
            PgType::Cidr => PgTypeKind::Simple,
            PgType::CidrArray => PgTypeKind::Array(PgTypeInfo(PgType::Cidr)),
            PgType::Float4 => PgTypeKind::Simple,
            PgType::Float8 => PgTypeKind::Simple,
            PgType::Unknown => PgTypeKind::Simple,
            PgType::Circle => PgTypeKind::Simple,
            PgType::CircleArray => PgTypeKind::Array(PgTypeInfo(PgType::Circle)),
            PgType::Macaddr8 => PgTypeKind::Simple,
            PgType::Macaddr8Array => PgTypeKind::Array(PgTypeInfo(PgType::Macaddr8)),
            PgType::Macaddr => PgTypeKind::Simple,
            PgType::Inet => PgTypeKind::Simple,
            PgType::BoolArray => PgTypeKind::Array(PgTypeInfo(PgType::Bool)),
            PgType::ByteaArray => PgTypeKind::Array(PgTypeInfo(PgType::Bytea)),
            PgType::CharArray => PgTypeKind::Array(PgTypeInfo(PgType::Char)),
            PgType::NameArray => PgTypeKind::Array(PgTypeInfo(PgType::Name)),
            PgType::Int2Array => PgTypeKind::Array(PgTypeInfo(PgType::Int2)),
            PgType::Int4Array => PgTypeKind::Array(PgTypeInfo(PgType::Int4)),
            PgType::TextArray => PgTypeKind::Array(PgTypeInfo(PgType::Text)),
            PgType::BpcharArray => PgTypeKind::Array(PgTypeInfo(PgType::Bpchar)),
            PgType::VarcharArray => PgTypeKind::Array(PgTypeInfo(PgType::Varchar)),
            PgType::Int8Array => PgTypeKind::Array(PgTypeInfo(PgType::Int8)),
            PgType::PointArray => PgTypeKind::Array(PgTypeInfo(PgType::Point)),
            PgType::LsegArray => PgTypeKind::Array(PgTypeInfo(PgType::Lseg)),
            PgType::PathArray => PgTypeKind::Array(PgTypeInfo(PgType::Path)),
            PgType::BoxArray => PgTypeKind::Array(PgTypeInfo(PgType::Box)),
            PgType::Float4Array => PgTypeKind::Array(PgTypeInfo(PgType::Float4)),
            PgType::Float8Array => PgTypeKind::Array(PgTypeInfo(PgType::Float8)),
            PgType::PolygonArray => PgTypeKind::Array(PgTypeInfo(PgType::Polygon)),
            PgType::OidArray => PgTypeKind::Array(PgTypeInfo(PgType::Oid)),
            PgType::MacaddrArray => PgTypeKind::Array(PgTypeInfo(PgType::Macaddr)),
            PgType::InetArray => PgTypeKind::Array(PgTypeInfo(PgType::Inet)),
            PgType::Bpchar => PgTypeKind::Simple,
            PgType::Varchar => PgTypeKind::Simple,
            PgType::Date => PgTypeKind::Simple,
            PgType::Time => PgTypeKind::Simple,
            PgType::Timestamp => PgTypeKind::Simple,
            PgType::TimestampArray => PgTypeKind::Array(PgTypeInfo(PgType::Timestamp)),
            PgType::DateArray => PgTypeKind::Array(PgTypeInfo(PgType::Date)),
            PgType::TimeArray => PgTypeKind::Array(PgTypeInfo(PgType::Time)),
            PgType::Timestamptz => PgTypeKind::Simple,
            PgType::TimestamptzArray => PgTypeKind::Array(PgTypeInfo(PgType::Timestamptz)),
            PgType::Interval => PgTypeKind::Simple,
            PgType::IntervalArray => PgTypeKind::Array(PgTypeInfo(PgType::Interval)),
            PgType::NumericArray => PgTypeKind::Array(PgTypeInfo(PgType::Numeric)),
            PgType::Timetz => PgTypeKind::Simple,
            PgType::TimetzArray => PgTypeKind::Array(PgTypeInfo(PgType::Timetz)),
            PgType::Bit => PgTypeKind::Simple,
            PgType::BitArray => PgTypeKind::Array(PgTypeInfo(PgType::Bit)),
            PgType::Varbit => PgTypeKind::Simple,
            PgType::VarbitArray => PgTypeKind::Array(PgTypeInfo(PgType::Varbit)),
            PgType::Numeric => PgTypeKind::Simple,
            PgType::Record => PgTypeKind::Simple,
            PgType::RecordArray => PgTypeKind::Array(PgTypeInfo(PgType::Record)),
            PgType::Uuid => PgTypeKind::Simple,
            PgType::UuidArray => PgTypeKind::Array(PgTypeInfo(PgType::Uuid)),
            PgType::Jsonb => PgTypeKind::Simple,
            PgType::JsonbArray => PgTypeKind::Array(PgTypeInfo(PgType::Jsonb)),
            PgType::Int4Range => PgTypeKind::Range(PgTypeInfo(PgType::Int4)),
            PgType::Int4RangeArray => PgTypeKind::Array(PgTypeInfo(PgType::Int4Range)),
            PgType::NumRange => PgTypeKind::Range(PgTypeInfo(PgType::Numeric)),
            PgType::NumRangeArray => PgTypeKind::Array(PgTypeInfo(PgType::NumRange)),
            PgType::TsRange => PgTypeKind::Range(PgTypeInfo(PgType::Timestamp)),
            PgType::TsRangeArray => PgTypeKind::Array(PgTypeInfo(PgType::TsRange)),
            PgType::TstzRange => PgTypeKind::Range(PgTypeInfo(PgType::Timestamptz)),
            PgType::TstzRangeArray => PgTypeKind::Array(PgTypeInfo(PgType::TstzRange)),
            PgType::DateRange => PgTypeKind::Range(PgTypeInfo(PgType::Date)),
            PgType::DateRangeArray => PgTypeKind::Array(PgTypeInfo(PgType::DateRange)),
            PgType::Int8Range => PgTypeKind::Range(PgTypeInfo(PgType::Int8)),
            PgType::Int8RangeArray => PgTypeKind::Array(PgTypeInfo(PgType::Int8Range)),
            PgType::Jsonpath => PgTypeKind::Simple,
            PgType::JsonpathArray => PgTypeKind::Array(PgTypeInfo(PgType::Jsonpath)),
            PgType::Money => PgTypeKind::Simple,
            PgType::MoneyArray => PgTypeKind::Array(PgTypeInfo(PgType::Money)),
            PgType::Void => PgTypeKind::Pseudo,
            PgType::Custom(ty) => ty.kind,
            PgType::DeclareWithOid(_) => arbitrary(),
            PgType::DeclareWithName(_) => arbitrary(),
        }
    }

    /// Returns the corresponding `PgType` if the OID is a built-in type and recognized.
    pub fn try_from_oid(oid: Oid) -> (res: Option<PgType>)
        ensures
            res == builtin_with_oid(oid),
    {
        let res = match oid.as_u32() {
            16 => PgType::Bool,
            17 => PgType::Bytea,
            18 => PgType::Char,
            19 => PgType::Name,
            20 => PgType::Int8,
            21 => PgType::Int2,
            23 => PgType::Int4,
            25 => PgType::Text,
            26 => PgType::Oid,
            114 => PgType::Json,
            199 => PgType::JsonArray,
            600 => PgType::Point,
            601 => PgType::Lseg,
            602 => PgType::Path,
            603 => PgType::Box,
            604 => PgType::Polygon,
            628 => PgType::Line,
            629 => PgType::LineArray,
            650 => PgType::Cidr,
            651 => PgType::CidrArray,
            700 => PgType::Float4,
            701 => PgType::Float8,
            705 => PgType::Unknown,
            718 => PgType::Circle,
            719 => PgType::CircleArray,
            774 => PgType::Macaddr8,
            775 => PgType::Macaddr8Array,
            790 => PgType::Money,
            791 => PgType::MoneyArray,
            829 => PgType::Macaddr,
            869 => PgType::Inet,
            1000 => PgType::BoolArray,
            1001 => PgType::ByteaArray,
            1002 => PgType::CharArray,
            1003 => PgType::NameArray,
            1005 => PgType::Int2Array,
            1007 => PgType::Int4Array,
            1009 => PgType::TextArray,
            1014 => PgType::BpcharArray,
            1015 => PgType::VarcharArray,
            1016 => PgType::Int8Array,
            1017 => PgType::PointArray,
            1018 => PgType::LsegArray,
            1019 => PgType::PathArray,
            1020 => PgType::BoxArray,
            1021 => PgType::Float4Array,
            1022 => PgType::Float8Array,
            1027 => PgType::PolygonArray,
            1028 => PgType::OidArray,
            1040 => PgType::MacaddrArray,
            1041 => PgType::InetArray,
            1042 => PgType::Bpchar,
            1043 => PgType::Varchar,
            1082 => PgType::Date,
            1083 => PgType::Time,
            1114 => PgType::Timestamp,
            1115 => PgType::TimestampArray,
            1182 => PgType::DateArray,
            1183 => PgType::TimeArray,
            1184 => PgType::Timestamptz,
            1185 => PgType::TimestamptzArray,
            1186 => PgType::Interval,
            1187 => PgType::IntervalArray,
            1231 => PgType::NumericArray,
            1266 => PgType::Timetz,
            1270 => PgType::TimetzArray,
            1560 => PgType::Bit,
            1561 => PgType::BitArray,
            1562 => PgType::Varbit,
            1563 => PgType::VarbitArray,
            1700 => PgType::Numeric,
            2249 => PgType::Record,
            2278 => PgType::Void,
            2287 => PgType::RecordArray,
            2950 => PgType::Uuid,
            2951 => PgType::UuidArray,
            3802 => PgType::Jsonb,
            3807 => PgType::JsonbArray,
            3904 => PgType::Int4Range,
            3905 => PgType::Int4RangeArray,
            3906 => PgType::NumRange,
            3907 => PgType::NumRangeArray,
            3908 => PgType::TsRange,
            3909 => PgType::TsRangeArray,
            3910 => PgType::TstzRange,
            3911 => PgType::TstzRangeArray,
            3912 => PgType::DateRange,
            3913 => PgType::DateRangeArray,
            3926 => PgType::Int8Range,
            3927 => PgType::Int8RangeArray,
            4072 => PgType::Jsonpath,
            4073 => PgType::JsonpathArray,
            _ => {
                proof {
                    lemma_no_builtin_with_unlisted_oid(oid);
                }
                return None;
            },
        };
        proof {
            lemma_builtin_oids_distinct_from(res, oid);
        }
        Some(res)
    }

    /// The OID of a type that is not a declaration by name.
    pub fn oid(&self) -> (res: Oid)
        requires
            !(self is DeclareWithName),
        ensures
            self.spec_try_oid() == Some(res),
    {
        match self.try_oid() {
            Some(oid) => oid,
            None => unreached(),
        }
    }

    /// The OID of the type, where it is known.
    pub fn try_oid(&self) -> (res: Option<Oid>)
        ensures
            res == self.spec_try_oid(),
    {
        let oid: u32 = match self {
            PgType::Bool => 16,
            PgType::Bytea => 17,
            PgType::Char => 18,
            PgType::Name => 19,
            PgType::Int8 => 20,
            PgType::Int2 => 21,
            PgType::Int4 => 23,
            PgType::Text => 25,
            PgType::Oid => 26,
            PgType::Json => 114,
            PgType::JsonArray => 199,
            PgType::Point => 600,
            PgType::Lseg => 601,
            PgType::Path => 602,
            PgType::Box => 603,
            PgType::Polygon => 604,
            PgType::Line => 628,
            PgType::LineArray => 629,
            PgType::Cidr => 650,
            PgType::CidrArray => 651,
            PgType::Float4 => 700,
            PgType::Float8 => 701,
            PgType::Unknown => 705,
            PgType::Circle => 718,
            PgType::CircleArray => 719,
            PgType::Macaddr8 => 774,
            PgType::Macaddr8Array => 775,
            PgType::Macaddr => 829,
            PgType::Inet => 869,
            PgType::BoolArray => 1000,
            PgType::ByteaArray => 1001,
            PgType::CharArray => 1002,
            PgType::NameArray => 1003,
            PgType::Int2Array => 1005,
            PgType::Int4Array => 1007,
            PgType::TextArray => 1009,
            PgType::BpcharArray => 1014,
            PgType::VarcharArray => 1015,
            PgType::Int8Array => 1016,
            PgType::PointArray => 1017,
            PgType::LsegArray => 1018,
            PgType::PathArray => 1019,
            PgType::BoxArray => 1020,
            PgType::Float4Array => 1021,
            PgType::Float8Array => 1022,
            PgType::PolygonArray => 1027,
            PgType::OidArray => 1028,
            PgType::MacaddrArray => 1040,
            PgType::InetArray => 1041,
            PgType::Bpchar => 1042,
            PgType::Varchar => 1043,
            PgType::Date => 1082,
            PgType::Time => 1083,
            PgType::Timestamp => 1114,
            PgType::TimestampArray => 1115,
            PgType::DateArray => 1182,
            PgType::TimeArray => 1183,
            PgType::Timestamptz => 1184,
            PgType::TimestamptzArray => 1185,
            PgType::Interval => 1186,
            PgType::IntervalArray => 1187,
            PgType::NumericArray => 1231,
            PgType::Timetz => 1266,
            PgType::TimetzArray => 1270,
            PgType::Bit => 1560,
            PgType::BitArray => 1561,
            PgType::Varbit => 1562,
            PgType::VarbitArray => 1563,
            PgType::Numeric => 1700,
            PgType::Record => 2249,
            PgType::RecordArray => 2287,
            PgType::Uuid => 2950,
            PgType::UuidArray => 2951,
            PgType::Jsonb => 3802,
            PgType::JsonbArray => 3807,
            PgType::Int4Range => 3904,
            PgType::Int4RangeArray => 3905,
            PgType::NumRange => 3906,
            PgType::NumRangeArray => 3907,
            PgType::TsRange => 3908,
            PgType::TsRangeArray => 3909,
            PgType::TstzRange => 3910,
            PgType::TstzRangeArray => 3911,
            PgType::DateRange => 3912,
            PgType::DateRangeArray => 3913,
            PgType::Int8Range => 3926,
            PgType::Int8RangeArray => 3927,
            PgType::Jsonpath => 4072,
            PgType::JsonpathArray => 4073,
            PgType::Money => 790,
            PgType::MoneyArray => 791,
            PgType::Void => 2278,
            PgType::Custom(ty) => {
                return Some(ty.oid);
            },
            PgType::DeclareWithOid(oid) => {
                return Some(*oid);
            },
            PgType::DeclareWithName(_) => {
                return None;
            },
        };
        Some(Oid::new(oid))
    }

    /// The name shown to users.
    pub fn display_name(&self) -> (res: &str)
        ensures
            res@ == self.spec_display_name(),
    {
        match self {
            PgType::Bool => "BOOL",
            PgType::Bytea => "BYTEA",
            PgType::Char => "\"CHAR\"",
            PgType::Name => "NAME",
            PgType::Int8 => "INT8",
            PgType::Int2 => "INT2",
            PgType::Int4 => "INT4",
            PgType::Text => "TEXT",
            PgType::Oid => "OID",
            PgType::Json => "JSON",
            PgType::JsonArray => "JSON[]",
            PgType::Point => "POINT",
            PgType::Lseg => "LSEG",
            PgType::Path => "PATH",
            PgType::Box => "BOX",
            PgType::Polygon => "POLYGON",
            PgType::Line => "LINE",
            PgType::LineArray => "LINE[]",
            PgType::Cidr => "CIDR",
            PgType::CidrArray => "CIDR[]",
            PgType::Float4 => "FLOAT4",
            PgType::Float8 => "FLOAT8",
            PgType::Unknown => "UNKNOWN",
            PgType::Circle => "CIRCLE",
            PgType::CircleArray => "CIRCLE[]",
            PgType::Macaddr8 => "MACADDR8",
            PgType::Macaddr8Array => "MACADDR8[]",
            PgType::Macaddr => "MACADDR",
            PgType::Inet => "INET",
            PgType::BoolArray => "BOOL[]",
            PgType::ByteaArray => "BYTEA[]",
            PgType::CharArray => "\"CHAR\"[]",
            PgType::NameArray => "NAME[]",
            PgType::Int2Array => "INT2[]",
            PgType::Int4Array => "INT4[]",
            PgType::TextArray => "TEXT[]",
            PgType::BpcharArray => "CHAR[]",
            PgType::VarcharArray => "VARCHAR[]",
            PgType::Int8Array => "INT8[]",
            PgType::PointArray => "POINT[]",
            PgType::LsegArray => "LSEG[]",
            PgType::PathArray => "PATH[]",
            PgType::BoxArray => "BOX[]",
            PgType::Float4Array => "FLOAT4[]",
            PgType::Float8Array => "FLOAT8[]",
            PgType::PolygonArray => "POLYGON[]",
            PgType::OidArray => "OID[]",
            PgType::MacaddrArray => "MACADDR[]",
            PgType::InetArray => "INET[]",
            PgType::Bpchar => "CHAR",
            PgType::Varchar => "VARCHAR",
            PgType::Date => "DATE",
            PgType::Time => "TIME",
            PgType::Timestamp => "TIMESTAMP",
            PgType::TimestampArray => "TIMESTAMP[]",
            PgType::DateArray => "DATE[]",
            PgType::TimeArray => "TIME[]",
            PgType::Timestamptz => "TIMESTAMPTZ",
            PgType::TimestamptzArray => "TIMESTAMPTZ[]",
            PgType::Interval => "INTERVAL",
            PgType::IntervalArray => "INTERVAL[]",
            PgType::NumericArray => "NUMERIC[]",
            PgType::Timetz => "TIMETZ",
            PgType::TimetzArray => "TIMETZ[]",
            PgType::Bit => "BIT",
            PgType::BitArray => "BIT[]",
            PgType::Varbit => "VARBIT",
            PgType::VarbitArray => "VARBIT[]",
            PgType::Numeric => "NUMERIC",
            PgType::Record => "RECORD",
            PgType::RecordArray => "RECORD[]",
            PgType::Uuid => "UUID",
            PgType::UuidArray => "UUID[]",
            PgType::Jsonb => "JSONB",
            PgType::JsonbArray => "JSONB[]",
            PgType::Int4Range => "INT4RANGE",
            PgType::Int4RangeArray => "INT4RANGE[]",
            PgType::NumRange => "NUMRANGE",
            PgType::NumRangeArray => "NUMRANGE[]",
            PgType::TsRange => "TSRANGE",
            PgType::TsRangeArray => "TSRANGE[]",
            PgType::TstzRange => "TSTZRANGE",
            PgType::TstzRangeArray => "TSTZRANGE[]",
            PgType::DateRange => "DATERANGE",
            PgType::DateRangeArray => "DATERANGE[]",
            PgType::Int8Range => "INT8RANGE",
            PgType::Int8RangeArray => "INT8RANGE[]",
            PgType::Jsonpath => "JSONPATH",
            PgType::JsonpathArray => "JSONPATH[]",
            PgType::Money => "MONEY",
            PgType::MoneyArray => "MONEY[]",
            PgType::Void => "VOID",
            PgType::Custom(ty) => ty.name.as_str(),
            PgType::DeclareWithOid(_) => "?",
            PgType::DeclareWithName(name) => name.as_str(),
        }
    }

    /// The name of the type in `pg_type`.
    pub fn name(&self) -> (res: &str)
        ensures
            res@ == self.spec_name(),
    {
        match self {
            PgType::Bool => "bool",
            PgType::Bytea => "bytea",
            PgType::Char => "char",
            PgType::Name => "name",
            PgType::Int8 => "int8",
            PgType::Int2 => "int2",
            PgType::Int4 => "int4",
            PgType::Text => "text",
            PgType::Oid => "oid",
            PgType::Json => "json",
            PgType::JsonArray => "_json",
            PgType::Point => "point",
            PgType::Lseg => "lseg",
            PgType::Path => "path",
            PgType::Box => "box",
            PgType::Polygon => "polygon",
            PgType::Line => "line",
            PgType::LineArray => "_line",
            PgType::Cidr => "cidr",
            PgType::CidrArray => "_cidr",
            PgType::Float4 => "float4",
            PgType::Float8 => "float8",
            PgType::Unknown => "unknown",
            PgType::Circle => "circle",
            PgType::CircleArray => "_circle",
            PgType::Macaddr8 => "macaddr8",
            PgType::Macaddr8Array => "_macaddr8",
            PgType::Macaddr => "macaddr",
            PgType::Inet => "inet",
            PgType::BoolArray => "_bool",
            PgType::ByteaArray => "_bytea",
            PgType::CharArray => "_char",
            PgType::NameArray => "_name",
            PgType::Int2Array => "_int2",
            PgType::Int4Array => "_int4",
            PgType::TextArray => "_text",
            PgType::BpcharArray => "_bpchar",
            PgType::VarcharArray => "_varchar",
            PgType::Int8Array => "_int8",
            PgType::PointArray => "_point",
            PgType::LsegArray => "_lseg",
            PgType::PathArray => "_path",
            PgType::BoxArray => "_box",
            PgType::Float4Array => "_float4",
            PgType::Float8Array => "_float8",
            PgType::PolygonArray => "_polygon",
            PgType::OidArray => "_oid",
            PgType::MacaddrArray => "_macaddr",
            PgType::InetArray => "_inet",
            PgType::Bpchar => "bpchar",
            PgType::Varchar => "varchar",
            PgType::Date => "date",
            PgType::Time => "time",
            PgType::Timestamp => "timestamp",
            PgType::TimestampArray => "_timestamp",
            PgType::DateArray => "_date",
            PgType::TimeArray => "_time",
            PgType::Timestamptz => "timestamptz",
            PgType::TimestamptzArray => "_timestamptz",
            PgType::Interval => "interval",
            PgType::IntervalArray => "_interval",
            PgType::NumericArray => "_numeric",
            PgType::Timetz => "timetz",
            PgType::TimetzArray => "_timetz",
            PgType::Bit => "bit",
            PgType::BitArray => "_bit",
            PgType::Varbit => "varbit",
            PgType::VarbitArray => "_varbit",
            PgType::Numeric => "numeric",
            PgType::Record => "record",
            PgType::RecordArray => "_record",
            PgType::Uuid => "uuid",
            PgType::UuidArray => "_uuid",
            PgType::Jsonb => "jsonb",
            PgType::JsonbArray => "_jsonb",
            PgType::Int4Range => "int4range",
            PgType::Int4RangeArray => "_int4range",
            PgType::NumRange => "numrange",
            PgType::NumRangeArray => "_numrange",
            PgType::TsRange => "tsrange",
            PgType::TsRangeArray => "_tsrange",
            PgType::TstzRange => "tstzrange",
            PgType::TstzRangeArray => "_tstzrange",
            PgType::DateRange => "daterange",
            PgType::DateRangeArray => "_daterange",
            PgType::Int8Range => "int8range",
            PgType::Int8RangeArray => "_int8range",
            PgType::Jsonpath => "jsonpath",
            PgType::JsonpathArray => "_jsonpath",
            PgType::Money => "money",
            PgType::MoneyArray => "_money",
            PgType::Void => "void",
            PgType::Custom(ty) => ty.name.as_str(),
            PgType::DeclareWithOid(_) => "?",
            PgType::DeclareWithName(name) => name.as_str(),
        }
    }

    /// The kind (simple, array, range, ...) of a resolved type.
    pub fn kind(&self) -> (res: &PgTypeKind)
        requires
            !self.is_declaration(),
        ensures
            *res == self.spec_kind(),
    {
        match self {
            PgType::Bool => &PgTypeKind::Simple,
            PgType::Bytea => &PgTypeKind::Simple,
            PgType::Char => &PgTypeKind::Simple,
            PgType::Name => &PgTypeKind::Simple,
            PgType::Int8 => &PgTypeKind::Simple,
            PgType::Int2 => &PgTypeKind::Simple,
            PgType::Int4 => &PgTypeKind::Simple,
            PgType::Text => &PgTypeKind::Simple,
            PgType::Oid => &PgTypeKind::Simple,
            PgType::Json => &PgTypeKind::Simple,
            PgType::JsonArray => &PgTypeKind::Array(PgTypeInfo(PgType::Json)),
            PgType::Point => &PgTypeKind::Simple,
            PgType::Lseg => &PgTypeKind::Simple,
            PgType::Path => &PgTypeKind::Simple,
            PgType::Box => &PgTypeKind::Simple,
            PgType::Polygon => &PgTypeKind::Simple,
            PgType::Line => &PgTypeKind::Simple,
            PgType::LineArray => &PgTypeKind::Array(PgTypeInfo(PgType::Line)),
            PgType::Cidr => &PgTypeKind::Simple,
            PgType::CidrArray => &PgTypeKind::Array(PgTypeInfo(PgType::Cidr)),
            PgType::Float4 => &PgTypeKind::Simple,
            PgType::Float8 => &PgTypeKind::Simple,
            PgType::Unknown => &PgTypeKind::Simple,
            PgType::Circle => &PgTypeKind::Simple,
            PgType::CircleArray => &PgTypeKind::Array(PgTypeInfo(PgType::Circle)),
            PgType::Macaddr8 => &PgTypeKind::Simple,
            PgType::Macaddr8Array => &PgTypeKind::Array(PgTypeInfo(PgType::Macaddr8)),
            PgType::Macaddr => &PgTypeKind::Simple,
            PgType::Inet => &PgTypeKind::Simple,
            PgType::BoolArray => &PgTypeKind::Array(PgTypeInfo(PgType::Bool)),
            PgType::ByteaArray => &PgTypeKind::Array(PgTypeInfo(PgType::Bytea)),
            PgType::CharArray => &PgTypeKind::Array(PgTypeInfo(PgType::Char)),
            PgType::NameArray => &PgTypeKind::Array(PgTypeInfo(PgType::Name)),
            PgType::Int2Array => &PgTypeKind::Array(PgTypeInfo(PgType::Int2)),
            PgType::Int4Array => &PgTypeKind::Array(PgTypeInfo(PgType::Int4)),
            PgType::TextArray => &PgTypeKind::Array(PgTypeInfo(PgType::Text)),
            PgType::BpcharArray => &PgTypeKind::Array(PgTypeInfo(PgType::Bpchar)),
            PgType::VarcharArray => &PgTypeKind::Array(PgTypeInfo(PgType::Varchar)),
            PgType::Int8Array => &PgTypeKind::Array(PgTypeInfo(PgType::Int8)),
            PgType::PointArray => &PgTypeKind::Array(PgTypeInfo(PgType::Point)),
            PgType::LsegArray => &PgTypeKind::Array(PgTypeInfo(PgType::Lseg)),
            PgType::PathArray => &PgTypeKind::Array(PgTypeInfo(PgType::Path)),
            PgType::BoxArray => &PgTypeKind::Array(PgTypeInfo(PgType::Box)),
            PgType::Float4Array => &PgTypeKind::Array(PgTypeInfo(PgType::Float4)),
            PgType::Float8Array => &PgTypeKind::Array(PgTypeInfo(PgType::Float8)),
            PgType::PolygonArray => &PgTypeKind::Array(PgTypeInfo(PgType::Polygon)),
            PgType::OidArray => &PgTypeKind::Array(PgTypeInfo(PgType::Oid)),
            PgType::MacaddrArray => &PgTypeKind::Array(PgTypeInfo(PgType::Macaddr)),
            PgType::InetArray => &PgTypeKind::Array(PgTypeInfo(PgType::Inet)),
            PgType::Bpchar => &PgTypeKind::Simple,
            PgType::Varchar => &PgTypeKind::Simple,
            PgType::Date => &PgTypeKind::Simple,
            PgType::Time => &PgTypeKind::Simple,
            PgType::Timestamp => &PgTypeKind::Simple,
            PgType::TimestampArray => &PgTypeKind::Array(PgTypeInfo(PgType::Timestamp)),
            PgType::DateArray => &PgTypeKind::Array(PgTypeInfo(PgType::Date)),
            PgType::TimeArray => &PgTypeKind::Array(PgTypeInfo(PgType::Time)),
            PgType::Timestamptz => &PgTypeKind::Simple,
            PgType::TimestamptzArray => &PgTypeKind::Array(PgTypeInfo(PgType::Timestamptz)),
            PgType::Interval => &PgTypeKind::Simple,
            PgType::IntervalArray => &PgTypeKind::Array(PgTypeInfo(PgType::Interval)),
            PgType::NumericArray => &PgTypeKind::Array(PgTypeInfo(PgType::Numeric)),
            PgType::Timetz => &PgTypeKind::Simple,
            PgType::TimetzArray => &PgTypeKind::Array(PgTypeInfo(PgType::Timetz)),
            PgType::Bit => &PgTypeKind::Simple,
            PgType::BitArray => &PgTypeKind::Array(PgTypeInfo(PgType::Bit)),
            PgType::Varbit => &PgTypeKind::Simple,
            PgType::VarbitArray => &PgTypeKind::Array(PgTypeInfo(PgType::Varbit)),
            PgType::Numeric => &PgTypeKind::Simple,
            PgType::Record => &PgTypeKind::Simple,
            PgType::RecordArray => &PgTypeKind::Array(PgTypeInfo(PgType::Record)),
            PgType::Uuid => &PgTypeKind::Simple,
            PgType::UuidArray => &PgTypeKind::Array(PgTypeInfo(PgType::Uuid)),
            PgType::Jsonb => &PgTypeKind::Simple,
            PgType::JsonbArray => &PgTypeKind::Array(PgTypeInfo(PgType::Jsonb)),
            PgType::Int4Range => &PgTypeKind::Range(PgTypeInfo(PgType::Int4)),
            PgType::Int4RangeArray => &PgTypeKind::Array(PgTypeInfo(PgType::Int4Range)),
            PgType::NumRange => &PgTypeKind::Range(PgTypeInfo(PgType::Numeric)),
            PgType::NumRangeArray => &PgTypeKind::Array(PgTypeInfo(PgType::NumRange)),
            PgType::TsRange => &PgTypeKind::Range(PgTypeInfo(PgType::Timestamp)),
            PgType::TsRangeArray => &PgTypeKind::Array(PgTypeInfo(PgType::TsRange)),
            PgType::TstzRange => &PgTypeKind::Range(PgTypeInfo(PgType::Timestamptz)),
            PgType::TstzRangeArray => &PgTypeKind::Array(PgTypeInfo(PgType::TstzRange)),
            PgType::DateRange => &PgTypeKind::Range(PgTypeInfo(PgType::Date)),
            PgType::DateRangeArray => &PgTypeKind::Array(PgTypeInfo(PgType::DateRange)),
            PgType::Int8Range => &PgTypeKind::Range(PgTypeInfo(PgType::Int8)),
            PgType::Int8RangeArray => &PgTypeKind::Array(PgTypeInfo(PgType::Int8Range)),
            PgType::Jsonpath => &PgTypeKind::Simple,
            PgType::JsonpathArray => &PgTypeKind::Array(PgTypeInfo(PgType::Jsonpath)),
            PgType::Money => &PgTypeKind::Simple,
            PgType::MoneyArray => &PgTypeKind::Array(PgTypeInfo(PgType::Money)),
            PgType::Void => &PgTypeKind::Pseudo,
            PgType::Custom(ty) => &ty.kind,
            PgType::DeclareWithOid(_) => unreached(),
            PgType::DeclareWithName(_) => unreached(),
        }
    }
}

/// Some built-in type has `oid` as its OID.
pub open spec fn is_builtin_oid(oid: Oid) -> bool {
    exists|t: PgType| t.is_builtin() && t.spec_try_oid() == Some(oid)
}

/// The built-in type whose OID is `oid`, if there is one.
pub open spec fn builtin_with_oid(oid: Oid) -> Option<PgType> {
    if is_builtin_oid(oid) {
        Some(choose|t: PgType| t.is_builtin() && t.spec_try_oid() == Some(oid))
    } else {
        None
    }
}

/// An OID outside the catalog belongs to no built-in type.
proof fn lemma_no_builtin_with_unlisted_oid(oid: Oid)
    requires

        oid.0 != 16 && oid.0 != 17 && oid.0 != 18 && oid.0 != 19 && oid.0 != 20 && oid.0 != 21 && oid.0 != 23 && oid.0 != 25 && oid.0 != 26 && oid.0 != 114 && oid.0 != 199 && oid.0 != 600 && oid.0 != 601 && oid.0 != 602 && oid.0 != 603 && oid.0 != 604 && oid.0 != 628 && oid.0 != 629 && oid.0 != 650 && oid.0 != 651 && oid.0 != 700 && oid.0 != 701 && oid.0 != 705 && oid.0 != 718 && oid.0 != 719 && oid.0 != 774 && oid.0 != 775 && oid.0 != 790 && oid.0 != 791 && oid.0 != 829 && oid.0 != 869 && oid.0 != 1000 && oid.0 != 1001 && oid.0 != 1002 && oid.0 != 1003 && oid.0 != 1005 && oid.0 != 1007 && oid.0 != 1009 && oid.0 != 1014 && oid.0 != 1015 && oid.0 != 1016 && oid.0 != 1017 && oid.0 != 1018 && oid.0 != 1019 && oid.0 != 1020 && oid.0 != 1021 && oid.0 != 1022 && oid.0 != 1027 && oid.0 != 1028 && oid.0 != 1040 && oid.0 != 1041 && oid.0 != 1042 && oid.0 != 1043 && oid.0 != 1082 && oid.0 != 1083 && oid.0 != 1114 && oid.0 != 1115 && oid.0 != 1182 && oid.0 != 1183 && oid.0 != 1184 && oid.0 != 1185 && oid.0 != 1186 && oid.0 != 1187 && oid.0 != 1231 && oid.0 != 1266 && oid.0 != 1270 && oid.0 != 1560 && oid.0 != 1561 && oid.0 != 1562 && oid.0 != 1563 && oid.0 != 1700 && oid.0 != 2249 && oid.0 != 2278 && oid.0 != 2287 && oid.0 != 2950 && oid.0 != 2951 && oid.0 != 3802 && oid.0 != 3807 && oid.0 != 3904 && oid.0 != 3905 && oid.0 != 3906 && oid.0 != 3907 && oid.0 != 3908 && oid.0 != 3909 && oid.0 != 3910 && oid.0 != 3911 && oid.0 != 3912 && oid.0 != 3913 && oid.0 != 3926 && oid.0 != 3927 && oid.0 != 4072 && oid.0 != 4073,
    ensures
        builtin_with_oid(oid) is None,
{
    assert forall|t: PgType| t.is_builtin() implies t.spec_try_oid() != Some(oid) by {
        lemma_builtin_oid_listed(t);
    }
}

/// The OID of every built-in type is one of those in the catalog.
proof fn lemma_builtin_oid_listed(t: PgType)
    requires
        t.is_builtin(),
    ensures
        t.spec_try_oid() matches Some(o) && (
            o.0 == 16 || o.0 == 17 || o.0 == 18 || o.0 == 19 || o.0 == 20 || o.0 == 21 || o.0 == 23 || o.0 == 25 || o.0 == 26 || o.0 == 114 || o.0 == 199 || o.0 == 600 || o.0 == 601 || o.0 == 602 || o.0 == 603 || o.0 == 604 || o.0 == 628 || o.0 == 629 || o.0 == 650 || o.0 == 651 || o.0 == 700 || o.0 == 701 || o.0 == 705 || o.0 == 718 || o.0 == 719 || o.0 == 774 || o.0 == 775 || o.0 == 790 || o.0 == 791 || o.0 == 829 || o.0 == 869 || o.0 == 1000 || o.0 == 1001 || o.0 == 1002 || o.0 == 1003 || o.0 == 1005 || o.0 == 1007 || o.0 == 1009 || o.0 == 1014 || o.0 == 1015 || o.0 == 1016 || o.0 == 1017 || o.0 == 1018 || o.0 == 1019 || o.0 == 1020 || o.0 == 1021 || o.0 == 1022 || o.0 == 1027 || o.0 == 1028 || o.0 == 1040 || o.0 == 1041 || o.0 == 1042 || o.0 == 1043 || o.0 == 1082 || o.0 == 1083 || o.0 == 1114 || o.0 == 1115 || o.0 == 1182 || o.0 == 1183 || o.0 == 1184 || o.0 == 1185 || o.0 == 1186 || o.0 == 1187 || o.0 == 1231 || o.0 == 1266 || o.0 == 1270 || o.0 == 1560 || o.0 == 1561 || o.0 == 1562 || o.0 == 1563 || o.0 == 1700 || o.0 == 2249 || o.0 == 2278 || o.0 == 2287 || o.0 == 2950 || o.0 == 2951 || o.0 == 3802 || o.0 == 3807 || o.0 == 3904 || o.0 == 3905 || o.0 == 3906 || o.0 == 3907 || o.0 == 3908 || o.0 == 3909 || o.0 == 3910 || o.0 == 3911 || o.0 == 3912 || o.0 == 3913 || o.0 == 3926 || o.0 == 3927 || o.0 == 4072 || o.0 == 4073
        ),
{
}

/// The built-in type `t` is the only one whose OID is `oid`.
proof fn lemma_builtin_oids_distinct_from(t: PgType, oid: Oid)
    requires
        t.is_builtin(),
        t.spec_try_oid() == Some(oid),
    ensures
        builtin_with_oid(oid) == Some(t),
{
    crate::laws::lemma_builtin_oids_distinct_all(t);
}

} // verus!
