# sqlx-core (PostgreSQL type information)

Type information for PostgreSQL types, verified with Verus.

- `src/type_info.rs`: `PgTypeInfo`, `PgType`, `PgCustomType`, `PgTypeKind`; how two types
  compare (`pg_type_eq`) and which optional feature a type needs (`feature_gate`).
- `src/catalog.rs`: the built-in types with their OIDs, names, display names and kinds, and
  the lookup of a built-in type by OID.
- `src/ascii.rs`: ASCII case-insensitive comparison of strings.
- `src/oid.rs`: `Oid`.
- `src/laws.rs`: properties proved across the functions (OID lookup undoes `oid`, built-in
  OIDs are distinct, built-in names and display names are distinct, array types are named
  after their elements, equality is reflexive and
  symmetric, ...).
- `app/lib.rs`: the PostgreSQL epoch as a `time::Date`, and copies of the types with serde's
  derives, converted to and from the library's types.
