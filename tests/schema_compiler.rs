use fixed_length_format::compile::{compile, CompiledSchema};
use fixed_length_format::dispatch::{FieldValue, RecordError};
use fixed_length_format::resolve::{resolve_fields, resolve_hints, HintState};
use fixed_length_format::schema::{
    FieldDecl, FieldKind, PositionHint, Schema, SchemaError, TagDecl, VariantDecl,
};
use PositionHint::{EndsAt, Length, StartsAt};

fn field(name: &str, kind: FieldKind, hints: Vec<PositionHint>) -> FieldDecl {
    FieldDecl { name: name.to_string(), kind, hints }
}

fn text(name: &str, hints: Vec<PositionHint>) -> FieldDecl {
    field(name, FieldKind::Text, hints)
}

fn variant(name: &str, tag: &str, fields: Vec<FieldDecl>) -> VariantDecl {
    VariantDecl {
        name: name.to_string(),
        has_discriminant: false,
        tag: TagDecl::Literal(tag.to_string()),
        fields,
    }
}

fn schema(variants: Vec<VariantDecl>) -> Schema {
    Schema { target_name: "Record".to_string(), is_enum: true, variants }
}

fn ranges(fields: &[fixed_length_format::resolve::ResolvedField]) -> Vec<(usize, usize)> {
    fields.iter().map(|f| (f.from, f.to)).collect()
}

fn header_schema() -> CompiledSchema {
    let s = schema(vec![variant(
        "Header",
        "HD",
        vec![
            text("name", vec![StartsAt(2), EndsAt(12)]),
            field("age", FieldKind::Integer, vec![StartsAt(12), EndsAt(15)]),
        ],
    )]);
    compile(&s).unwrap()
}

#[test]
fn length_follows_prior_field() {
    let fields = vec![text("a", vec![Length(10)]), text("b", vec![Length(4)])];
    let out = resolve_fields(&fields, 0).unwrap();
    assert_eq!(ranges(&out), vec![(0, 10), (10, 14)]);
}

#[test]
fn starts_at_then_length_moves_cursor_to_end() {
    let fields = vec![
        text("a", vec![Length(10)]),
        text("b", vec![StartsAt(2), Length(4)]),
        text("c", vec![Length(3)]),
    ];
    let out = resolve_fields(&fields, 0).unwrap();
    assert_eq!(ranges(&out), vec![(0, 10), (2, 6), (6, 9)]);
}

#[test]
fn starts_at_alone_keeps_cursor() {
    let fields = vec![
        text("a", vec![Length(10)]),
        text("b", vec![Length(4), StartsAt(2)]),
        text("c", vec![Length(1)]),
    ];
    let out = resolve_fields(&fields, 0).unwrap();
    assert_eq!(ranges(&out), vec![(0, 10), (2, 6), (14, 15)]);
}

#[test]
fn hint_fold_states() {
    let st = resolve_hints(&vec![StartsAt(2), Length(4)], 10).unwrap();
    assert_eq!(st, HintState { from: 2, to: 6, length: 4, cursor: 6 });
    let st = resolve_hints(&vec![Length(4), StartsAt(2)], 10).unwrap();
    assert_eq!(st, HintState { from: 2, to: 6, length: 4, cursor: 14 });
    let st = resolve_hints(&vec![StartsAt(3), EndsAt(8)], 0).unwrap();
    assert_eq!(st, HintState { from: 3, to: 8, length: 5, cursor: 8 });
    let st = resolve_hints(&vec![], 7).unwrap();
    assert_eq!(st, HintState { from: 7, to: 7, length: 0, cursor: 7 });
}

#[test]
fn cursor_restarts_for_each_variant() {
    let s = schema(vec![
        variant("A", "AA", vec![text("x", vec![Length(5)])]),
        variant("B", "BB", vec![text("y", vec![Length(3)])]),
    ]);
    let c = compile(&s).unwrap();
    assert_eq!(ranges(&c.records[0].fields), vec![(0, 5)]);
    assert_eq!(ranges(&c.records[1].fields), vec![(0, 3)]);
}

#[test]
fn round_trip_header_record() {
    let c = header_schema();
    let p = c.parse("HDAlice     030").unwrap();
    assert_eq!(p.record, 0);
    assert_eq!(p.variant_name, "Header");
    assert_eq!(
        p.values,
        vec![FieldValue::Text("Alice     ".to_string()), FieldValue::Integer(30)]
    );
}

#[test]
fn unknown_tag_is_invalid_tag() {
    let c = header_schema();
    assert_eq!(c.parse("XXsomething...").map(|p| p.values), Err(RecordError::InvalidTag));
}

#[test]
fn non_numeric_age_fails_on_age() {
    let c = header_schema();
    let expected = Err(RecordError::FieldParseFailure {
        record_type: "HD".to_string(),
        field: "age".to_string(),
    });
    assert_eq!(c.parse("HDAlice     XXX").map(|p| p.values), expected);
}

#[test]
fn short_age_slice_fails_on_age() {
    let c = header_schema();
    let expected = Err(RecordError::FieldParseFailure {
        record_type: "HD".to_string(),
        field: "age".to_string(),
    });
    assert_eq!(c.parse("HD  AliceXXX").map(|p| p.values), expected);
}

#[test]
fn line_shorter_than_tag_is_invalid_tag() {
    let c = header_schema();
    assert_eq!(c.parse("H").map(|p| p.values), Err(RecordError::InvalidTag));
    assert_eq!(c.parse("").map(|p| p.values), Err(RecordError::InvalidTag));
}

#[test]
fn first_failing_field_is_reported() {
    let s = schema(vec![variant(
        "Row",
        "R",
        vec![
            field("a", FieldKind::Integer, vec![StartsAt(1), Length(2)]),
            field("b", FieldKind::Integer, vec![Length(2)]),
            field("c", FieldKind::Integer, vec![Length(2)]),
        ],
    )]);
    let c = compile(&s).unwrap();
    let expected = Err(RecordError::FieldParseFailure {
        record_type: "R".to_string(),
        field: "b".to_string(),
    });
    assert_eq!(c.parse("R12xxyy").map(|p| p.values), expected);
}

#[test]
fn integer_fields_follow_decimal_syntax() {
    let s = schema(vec![variant(
        "N",
        "N",
        vec![field("n", FieldKind::Integer, vec![StartsAt(1), EndsAt(21)])],
    )]);
    let c = compile(&s).unwrap();
    let value = |line: &str| c.parse(line).map(|p| p.values);
    assert_eq!(value("N+0000000000000000012"), Ok(vec![FieldValue::Integer(12)]));
    assert_eq!(value("N-0000000000000000007"), Ok(vec![FieldValue::Integer(-7)]));
    assert_eq!(
        value("N09223372036854775807"),
        Ok(vec![FieldValue::Integer(i64::MAX)])
    );
    assert!(value("N09223372036854775808").is_err());
    assert!(value("N 0000000000000000001").is_err());
    assert!(value("N+-000000000000000001").is_err());
}

#[test]
fn duplicate_tag_first_declared_wins() {
    let s = schema(vec![
        variant("First", "DU", vec![text("x", vec![StartsAt(2), Length(2)])]),
        variant("Second", "DU", vec![text("y", vec![StartsAt(2), Length(3)])]),
    ]);
    let c = compile(&s).unwrap();
    let p = c.parse("DUabc").unwrap();
    assert_eq!(p.record, 0);
    assert_eq!(p.variant_name, "First");
    assert_eq!(p.values, vec![FieldValue::Text("ab".to_string())]);
}

#[test]
fn consistent_schema_compiles() {
    let s = schema(vec![
        variant("Header", "HDR", vec![text("id", vec![StartsAt(3), Length(4)])]),
        variant("Detail", "DTL", vec![text("a", vec![Length(3)]), text("b", vec![Length(6)])]),
    ]);
    let c = compile(&s).unwrap();
    assert_eq!(c.tag_len, 3);
    assert_eq!(c.records.len(), 2);
    assert_eq!(c.records[0].tag, "HDR");
    assert_eq!(c.records[1].tag, "DTL");
    assert_eq!(ranges(&c.records[1].fields), vec![(0, 3), (3, 9)]);
    for r in &c.records {
        for f in &r.fields {
            assert!(f.from < f.to);
        }
    }
}

#[test]
fn compiling_twice_gives_same_ranges() {
    let s = schema(vec![variant(
        "Header",
        "HD",
        vec![text("a", vec![Length(4), StartsAt(1)]), text("b", vec![EndsAt(9)])],
    )]);
    let c1 = compile(&s).unwrap();
    let c2 = compile(&s).unwrap();
    assert_eq!(ranges(&c1.records[0].fields), ranges(&c2.records[0].fields));
    assert_eq!(ranges(&c1.records[0].fields), vec![(1, 5), (4, 9)]);
}

#[test]
fn zero_length_field_is_rejected() {
    let s = schema(vec![variant(
        "V",
        "VV",
        vec![text("a", vec![Length(3)]), text("b", vec![StartsAt(4), Length(0)])],
    )]);
    assert_eq!(compile(&s).map(|c| c.tag_len), Err(SchemaError::ZeroLengthField { variant: 0, field: 1 }));
    let s = schema(vec![variant("V", "VV", vec![text("a", vec![Length(0), StartsAt(9)])])]);
    assert_eq!(compile(&s).map(|c| c.tag_len), Err(SchemaError::ZeroLengthField { variant: 0, field: 0 }));
    let s = schema(vec![variant("V", "VV", vec![text("a", vec![])])]);
    assert_eq!(compile(&s).map(|c| c.tag_len), Err(SchemaError::ZeroLengthField { variant: 0, field: 0 }));
}

#[test]
fn length_zero_overridden_by_ends_at() {
    let s = schema(vec![variant("V", "VV", vec![text("a", vec![Length(0), EndsAt(5)])])]);
    let c = compile(&s).unwrap();
    assert_eq!(ranges(&c.records[0].fields), vec![(0, 5)]);
}

#[test]
fn invalid_ranges_are_rejected() {
    let s = schema(vec![variant("V", "VV", vec![text("a", vec![StartsAt(6), EndsAt(4)])])]);
    assert_eq!(compile(&s).map(|c| c.tag_len), Err(SchemaError::FieldRangeInvalid { variant: 0, field: 0 }));
    let s = schema(vec![
        variant("V", "VV", vec![text("a", vec![Length(1)])]),
        variant("W", "WW", vec![text("a", vec![Length(1)]), text("b", vec![Length(usize::MAX)])]),
    ]);
    assert_eq!(compile(&s).map(|c| c.tag_len), Err(SchemaError::FieldRangeInvalid { variant: 1, field: 1 }));
}

#[test]
fn schema_shape_errors() {
    let mut s = schema(vec![variant("V", "VV", vec![text("a", vec![Length(1)])])]);
    s.is_enum = false;
    assert_eq!(compile(&s).map(|c| c.tag_len), Err(SchemaError::NotTaggedUnion));

    let s = schema(vec![]);
    assert_eq!(compile(&s).map(|c| c.tag_len), Err(SchemaError::NoRecordTypes));

    let s = schema(vec![variant("V", "", vec![text("a", vec![Length(1)])])]);
    assert_eq!(compile(&s).map(|c| c.tag_len), Err(SchemaError::NoRecordTypes));

    let mut v = variant("W", "WW", vec![text("a", vec![Length(1)])]);
    v.has_discriminant = true;
    let s = schema(vec![variant("V", "VV", vec![text("a", vec![Length(1)])]), v]);
    assert_eq!(compile(&s).map(|c| c.tag_len), Err(SchemaError::DiscriminantSet { variant: 1 }));

    let mut v = variant("W", "WW", vec![]);
    v.tag = TagDecl::Unexpected;
    let s = schema(vec![v]);
    assert_eq!(compile(&s).map(|c| c.tag_len), Err(SchemaError::UnexpectedAttribute { variant: 0 }));

    let mut v = variant("W", "WW", vec![]);
    v.tag = TagDecl::NonLiteral;
    let s = schema(vec![variant("V", "VV", vec![text("a", vec![Length(1)])]), v]);
    assert_eq!(compile(&s).map(|c| c.tag_len), Err(SchemaError::TagNotLiteral { variant: 1 }));

    let s = schema(vec![
        variant("V", "VV", vec![text("a", vec![Length(1)])]),
        variant("W", "WWW", vec![text("a", vec![Length(1)])]),
    ]);
    assert_eq!(compile(&s).map(|c| c.tag_len), Err(SchemaError::TagLengthMismatch { variant: 1 }));
}

#[test]
fn validation_precedes_resolution() {
    let s = schema(vec![
        variant("V", "VV", vec![text("a", vec![])]),
        variant("W", "WWW", vec![text("a", vec![Length(1)])]),
    ]);
    assert_eq!(compile(&s).map(|c| c.tag_len), Err(SchemaError::TagLengthMismatch { variant: 1 }));
}

#[test]
fn error_messages() {
    assert_eq!(RecordError::InvalidTag.message(), "invalid record type");
    let e = RecordError::FieldParseFailure { record_type: "HD".to_string(), field: "age".to_string() };
    assert_eq!(e.message(), "failed to parse field `age` in HD record.");
}

#[test]
fn error_type_name_derives_from_target() {
    let s = schema(vec![]);
    assert_eq!(s.error_type_name(), "RecordParseError");
}
