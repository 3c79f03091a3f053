use std::sync::Arc;
use vstd::prelude::*;
use vstd::std_specs::cmp::PartialEqSpecImpl;

use crate::ascii::{eq_ignore_ascii_case, eq_ignore_ascii_case_spec};
use crate::oid::Oid;

verus! {

/// Type information for a PostgreSQL type.
#[derive(Debug, Clone)]
pub struct PgTypeInfo(pub PgType);

impl std::ops::Deref for PgTypeInfo {
    type Target = PgType;

    fn deref(&self) -> (res: &PgType)
        ensures
            *res == self.0,
    {
        &self.0
    }
}

/// A PostgreSQL type: one of the built-in types, a user-defined type resolved against a
/// server's catalog, or a type declared by name or by OID and not yet resolved.
#[derive(Debug, Clone)]
pub enum PgType {
    Bool,
    Bytea,
    Char,
    Name,
    Int8,
    Int2,
    Int4,
    Text,
    Oid,
    Json,
    JsonArray,
    Point,
    Lseg,
    Path,
    Box,
    Polygon,
    Line,
    LineArray,
    Cidr,
    CidrArray,
    Float4,
    Float8,
    Unknown,
    Circle,
    CircleArray,
    Macaddr8,
    Macaddr8Array,
    Macaddr,
    Inet,
    BoolArray,
    ByteaArray,
    CharArray,
    NameArray,
    Int2Array,
    Int4Array,
    TextArray,
    BpcharArray,
    VarcharArray,
    Int8Array,
    PointArray,
    LsegArray,
    PathArray,
    BoxArray,
    Float4Array,
    Float8Array,
    PolygonArray,
    OidArray,
    MacaddrArray,
    InetArray,
    Bpchar,
    Varchar,
    Date,
    Time,
    Timestamp,
    TimestampArray,
    DateArray,
    TimeArray,
    Timestamptz,
    TimestamptzArray,
    Interval,
    IntervalArray,
    NumericArray,
    Timetz,
    TimetzArray,
    Bit,
    BitArray,
    Varbit,
    VarbitArray,
    Numeric,
    Record,
    RecordArray,
    Uuid,
    UuidArray,
    Jsonb,
    JsonbArray,
    Int4Range,
    Int4RangeArray,
    NumRange,
    NumRangeArray,
    TsRange,
    TsRangeArray,
    TstzRange,
    TstzRangeArray,
    DateRange,
    DateRangeArray,
    Int8Range,
    Int8RangeArray,
    Jsonpath,
    JsonpathArray,
    Money,
    MoneyArray,
    Void,
    // A realized user-defined type. When a connection sees a DeclareXX variant it resolves
    // into this one before passing it along to `accepts` or inside of `Value` objects.
    Custom(Arc<PgCustomType>),
    // From [`PgTypeInfo::with_name`]
    DeclareWithName(String),
    // From [`PgTypeInfo::with_oid`]
    DeclareWithOid(Oid),
}

/// A user-defined type as found in a server's catalog.
#[derive(Debug, Clone)]
pub struct PgCustomType {
    pub oid: Oid,
    pub name: String,
    pub kind: PgTypeKind,
}

/// What a type is made of.
#[derive(Debug, Clone)]
pub enum PgTypeKind {
    Simple,
    Pseudo,
    Domain(PgTypeInfo),
    Composite(Arc<[(String, PgTypeInfo)]>),
    Array(PgTypeInfo),
    Enum(Arc<[String]>),
    Range(PgTypeInfo),
}

/// Whether one of `candidates` compares equal to `t` (each candidate on the left of `==`).
pub open spec fn eq_any(t: PgType, candidates: Seq<PgType>) -> bool {
    exists|i: int| 0 <= i < candidates.len() && #[trigger] pg_type_eq(candidates[i], t)
}

/// The date and time types.
pub open spec fn time_types() -> Seq<PgType> {
    seq![
        PgType::Date,
        PgType::Time,
        PgType::Timestamp,
        PgType::Timestamptz,
        PgType::DateArray,
        PgType::TimeArray,
        PgType::TimestampArray,
        PgType::TimestamptzArray,
    ]
}

/// The UUID types.
pub open spec fn uuid_types() -> Seq<PgType> {
    seq![PgType::Uuid, PgType::UuidArray]
}

/// The JSON types.
pub open spec fn json_types() -> Seq<PgType> {
    seq![PgType::Json, PgType::Jsonb, PgType::JsonArray, PgType::JsonbArray]
}

/// The network address types.
pub open spec fn network_types() -> Seq<PgType> {
    seq![PgType::Cidr, PgType::Inet, PgType::CidrArray, PgType::InetArray]
}

/// The MAC address type.
pub open spec fn mac_address_types() -> Seq<PgType> {
    seq![PgType::Macaddr]
}

/// The arbitrary-precision number types.
pub open spec fn decimal_types() -> Seq<PgType> {
    seq![PgType::Numeric, PgType::NumericArray]
}

/// The optional feature that support for a type needs, checked group by group in order.
pub open spec fn feature_gate(t: PgType) -> Option<Seq<char>> {
    if eq_any(t, time_types()) {
        Some("time"@)
    } else if eq_any(t, uuid_types()) {
        Some("uuid"@)
    } else if eq_any(t, json_types()) {
        Some("json"@)
    } else if eq_any(t, network_types()) {
        Some("ipnetwork"@)
    } else if eq_any(t, mac_address_types()) {
        Some("mac_address"@)
    } else if eq_any(t, decimal_types()) {
        Some("bigdecimal"@)
    } else {
        None
    }
}

impl PgTypeInfo {
    /// Returns the corresponding `PgTypeInfo` if the OID is a built-in type and recognized.
    pub fn try_from_oid(oid: Oid) -> (res: Option<Self>)
        ensures
            res matches Some(info) ==> crate::catalog::builtin_with_oid(oid) == Some(info.0),
            res is None <==> crate::catalog::builtin_with_oid(oid) is None,
    {
        match PgType::try_from_oid(oid) {
            Some(t) => Some(PgTypeInfo(t)),
            None => None,
        }
    }

    /// Returns the _kind_ (simple, array, enum, etc.) for this type.
    pub fn kind(&self) -> (res: &PgTypeKind)
        requires
            !self.0.is_declaration(),
        ensures
            *res == self.0.spec_kind(),
    {
        self.0.kind()
    }

    /// Whether `self` compares equal to one of `candidates`, each candidate taken as the
    /// left side of `==`.
    fn eq_any(&self, candidates: &[PgTypeInfo]) -> (res: bool)
        ensures
            res == exists|i: int| 0 <= i < candidates@.len() && #[trigger] pg_type_eq(candidates@[i].0, self.0),
    {
        let mut i: usize = 0;
        while i < candidates.len()
            invariant
                i <= candidates@.len(),
                forall|j: int| 0 <= j < i ==> !(#[trigger] pg_type_eq(candidates@[j].0, self.0)),
            decreases candidates@.len() - i,
        {
            if candidates[i] == *self {
                return true;
            }
            i = i + 1;
        }
        false
    }

    /// The optional feature that support for this type needs, if any.
    pub fn __type_feature_gate(&self) -> (res: Option<&'static str>)
        ensures
            res is Some <==> feature_gate(self.0) is Some,
            res matches Some(s) ==> feature_gate(self.0) == Some(s@),
    {
        let time = [
            PgTypeInfo(PgType::Date),
            PgTypeInfo(PgType::Time),
            PgTypeInfo(PgType::Timestamp),
            PgTypeInfo(PgType::Timestamptz),
            PgTypeInfo(PgType::DateArray),
            PgTypeInfo(PgType::TimeArray),
            PgTypeInfo(PgType::TimestampArray),
            PgTypeInfo(PgType::TimestamptzArray),
        ];
        let uuid = [PgTypeInfo(PgType::Uuid), PgTypeInfo(PgType::UuidArray)];
        let json = [
            PgTypeInfo(PgType::Json),
            PgTypeInfo(PgType::Jsonb),
            PgTypeInfo(PgType::JsonArray),
            PgTypeInfo(PgType::JsonbArray),
        ];
        let network = [
            PgTypeInfo(PgType::Cidr),
            PgTypeInfo(PgType::Inet),
            PgTypeInfo(PgType::CidrArray),
            PgTypeInfo(PgType::InetArray),
        ];
        let mac_address = [PgTypeInfo(PgType::Macaddr)];
        let decimal = [PgTypeInfo(PgType::Numeric), PgTypeInfo(PgType::NumericArray)];
        proof {
            lemma_eq_any_lifts(self.0, time@, time_types());
            lemma_eq_any_lifts(self.0, uuid@, uuid_types());
            lemma_eq_any_lifts(self.0, json@, json_types());
            lemma_eq_any_lifts(self.0, network@, network_types());
            lemma_eq_any_lifts(self.0, mac_address@, mac_address_types());
            lemma_eq_any_lifts(self.0, decimal@, decimal_types());
        }
        if self.eq_any(&time) {
            Some("time")
        } else if self.eq_any(&uuid) {
            Some("uuid")
        } else if self.eq_any(&json) {
            Some("json")
        } else if self.eq_any(&network) {
            Some("ipnetwork")
        } else if self.eq_any(&mac_address) {
            Some("mac_address")
        } else if self.eq_any(&decimal) {
            Some("bigdecimal")
        } else {
            None
        }
    }

    /// Create a `PgTypeInfo` from a type name.
    ///
    /// The OID for the type will be fetched from Postgres on use of
    /// a value of this type. The fetched OID will be cached per-connection.
    pub fn with_name(name: &'static str) -> (res: Self)
        ensures
            res.0 matches PgType::DeclareWithName(n) && n@ == name@,
    {
        PgTypeInfo(PgType::DeclareWithName(name.to_owned()))
    }

    /// Create a `PgTypeInfo` from an OID.
    ///
    /// Note that the OID for a type is very dependent on the environment. If you only ever use
    /// one database or if this is an unhandled build-in type, you should be fine. Otherwise,
    /// you will be better served using [`with_name`](Self::with_name).
    pub fn with_oid(oid: Oid) -> (res: Self)
        ensures
            res.0 == PgType::DeclareWithOid(oid),
    {
        PgTypeInfo(PgType::DeclareWithOid(oid))
    }

    /// The name of the type as shown to users.
    pub fn name(&self) -> (res: &str)
        ensures
            res@ == self.0.spec_display_name(),
    {
        self.0.display_name()
    }

    /// The text that displaying the type writes: its display name.
    pub fn to_string(&self) -> (res: String)
        ensures
            res@ == self.0.spec_display_name(),
    {
        self.name().to_owned()
    }

    /// No PostgreSQL type stands for `NULL` itself.
    pub fn is_null(&self) -> (res: bool)
        ensures
            !res,
    {
        false
    }

    /// Whether this is the pseudo-type `void`.
    pub fn is_void(&self) -> (res: bool)
        ensures
            res == (self.0 is Void),
    {
        match self.0 {
            PgType::Void => true,
            _ => false,
        }
    }
}

/// The candidates as written in code stand for the sequence of types in the contract.
proof fn lemma_eq_any_lifts(t: PgType, candidates: Seq<PgTypeInfo>, types: Seq<PgType>)
    requires
        candidates.len() == types.len(),
        forall|i: int| 0 <= i < types.len() ==> candidates[i].0 == types[i],
    ensures
        (exists|i: int| 0 <= i < candidates.len() && #[trigger] pg_type_eq(candidates[i].0, t))
            == eq_any(t, types),
{
    if eq_any(t, types) {
        let i = choose|i: int| 0 <= i < types.len() && #[trigger] pg_type_eq(types[i], t);
        assert(pg_type_eq(candidates[i].0, t));
    }
    if exists|i: int| 0 <= i < candidates.len() && #[trigger] pg_type_eq(candidates[i].0, t) {
        let i = choose|i: int| 0 <= i < candidates.len() && #[trigger] pg_type_eq(candidates[i].0, t);
        assert(pg_type_eq(types[i], t));
    }
}

impl PartialEq for PgCustomType {
    fn eq(&self, other: &PgCustomType) -> (res: bool) {
        other.oid == self.oid
    }
}

impl PartialEqSpecImpl for PgCustomType {
    open spec fn obeys_eq_spec() -> bool {
        true
    }

    open spec fn eq_spec(&self, other: &PgCustomType) -> bool {
        other.oid == self.oid
    }
}

impl PartialEq for PgType {
    fn eq(&self, other: &PgType) -> (res: bool) {
        match (self.try_oid(), other.try_oid()) {
            (Some(a), Some(b)) => {
                // If there are OIDs available, use OIDs to perform a direct match
                return a == b;
            },
            _ => {},
        }
        match (self, other) {
            // One is a declare-with-name and the other is a declare-with-id.
            // This only occurs in the TEXT protocol with custom types;
            // just opt out of type checking here.
            (PgType::DeclareWithName(_), PgType::DeclareWithOid(_))
            | (PgType::DeclareWithOid(_), PgType::DeclareWithName(_)) => true,
            // Otherwise, perform a match on the name
            _ => eq_ignore_ascii_case(self.name(), other.name()),
        }
    }
}

impl PartialEqSpecImpl for PgType {
    open spec fn obeys_eq_spec() -> bool {
        true
    }

    open spec fn eq_spec(&self, other: &PgType) -> bool {
        pg_type_eq(*self, *other)
    }
}

/// When two types compare equal: by OID where both have one; a declaration by name and a
/// declaration by OID always match; otherwise by name, ignoring ASCII case.
pub open spec fn pg_type_eq(a: PgType, b: PgType) -> bool {
    match (a.spec_try_oid(), b.spec_try_oid()) {
        (Some(x), Some(y)) => x == y,
        _ => if (a is DeclareWithName && b is DeclareWithOid) || (a is DeclareWithOid
            && b is DeclareWithName) {
            true
        } else {
            eq_ignore_ascii_case_spec(a.spec_name(), b.spec_name())
        },
    }
}

impl PartialEq for PgTypeInfo {
    fn eq(&self, other: &PgTypeInfo) -> (res: bool) {
        self.0 == other.0
    }
}

impl PartialEqSpecImpl for PgTypeInfo {
    open spec fn obeys_eq_spec() -> bool {
        true
    }

    open spec fn eq_spec(&self, other: &PgTypeInfo) -> bool {
        pg_type_eq(self.0, other.0)
    }
}

} // verus!
