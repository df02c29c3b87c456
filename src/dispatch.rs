use vstd::prelude::*;
use vstd::string::*;

use crate::compile::{CompiledSchema, RecordLayout};
use crate::number::{i64_value, parse_i64};
use crate::resolve::ResolvedField;
use crate::schema::FieldKind;

verus! {

/// The value that one field of a line converts to.
#[derive(Clone, Debug, PartialEq, Eq)]
pub enum FieldValue {
    Text(String),
    Integer(i64),
}

/// A line parsed as one of the schema's records.
#[derive(Clone, Debug)]
pub struct ParsedRecord {
    /// The index of the matched record in the compiled schema.
    pub record: usize,
    pub variant_name: String,
    /// One value per field, in declaration order.
    pub values: Vec<FieldValue>,
}

/// Why a line is not a record of the schema.
#[derive(Clone, Debug, PartialEq, Eq)]
pub enum RecordError {
    /// The line's leading tag matches no record, or the line is shorter than a tag.
    InvalidTag,
    /// The text of a field does not convert to the field's kind, or lies past the
    /// end of the line.
    FieldParseFailure { record_type: String, field: String },
}

/// The index of the first record from `k` on whose tag is `tag`.
pub open spec fn first_tag_match(records: Seq<RecordLayout>, tag: Seq<char>, k: int) -> Option<int>
    decreases records.len() - k,
{
    if k < 0 || k >= records.len() {
        None
    } else if records[k].tag@ == tag {
        Some(k)
    } else {
        first_tag_match(records, tag, k + 1)
    }
}

/// The record that a line is dispatched to: the first one, in declaration order,
/// whose tag equals the line's first `tag_len` characters.
pub open spec fn dispatch(c: CompiledSchema, line: Seq<char>) -> Option<int> {
    if line.len() >= c.tag_len {
        first_tag_match(c.records@, line.subrange(0, c.tag_len as int), 0)
    } else {
        None
    }
}

/// The characters `[from, to)` of the line, where the line holds them.
pub open spec fn field_text(line: Seq<char>, f: ResolvedField) -> Option<Seq<char>> {
    if f.from <= f.to && f.to <= line.len() {
        Some(line.subrange(f.from as int, f.to as int))
    } else {
        None
    }
}

/// `v` is what field `f` of the line converts to.
pub open spec fn value_matches(line: Seq<char>, f: ResolvedField, v: FieldValue) -> bool {
    match field_text(line, f) {
        Some(t) => match (f.kind, v) {
            (FieldKind::Text, FieldValue::Text(s)) => s@ == t,
            (FieldKind::Integer, FieldValue::Integer(n)) => i64_value(t) == Some(n as int),
            _ => false,
        },
        None => false,
    }
}

/// Field `f` of the line converts to its kind.
pub open spec fn field_converts(line: Seq<char>, f: ResolvedField) -> bool {
    match field_text(line, f) {
        Some(t) => match f.kind {
            FieldKind::Text => true,
            FieldKind::Integer => i64_value(t) is Some,
        },
        None => false,
    }
}

/// The index of the first field from `j` on that does not convert.
pub open spec fn first_failed_field(fields: Seq<ResolvedField>, line: Seq<char>, j: int) -> Option<int>
    decreases fields.len() - j,
{
    if j < 0 || j >= fields.len() {
        None
    } else if !field_converts(line, fields[j]) {
        Some(j)
    } else {
        first_failed_field(fields, line, j + 1)
    }
}

/// Converts one field of a line of `line_len` characters.
fn convert_field(line: &str, line_len: usize, f: &ResolvedField) -> (r: Option<FieldValue>)
    requires
        line_len == line@.len(),
    ensures
        r is Some <==> field_converts(line@, *f),
        r matches Some(v) ==> value_matches(line@, *f, v),
{
    if f.from <= f.to && f.to <= line_len {
        let t = line.substring_char(f.from, f.to);
        match f.kind {
            FieldKind::Text => Some(FieldValue::Text(t.to_owned())),
            FieldKind::Integer => match parse_i64(t) {
                Some(n) => Some(FieldValue::Integer(n)),
                None => None,
            },
        }
    } else {
        None
    }
}

impl RecordError {
    /// The human-readable rendering of the error.
    pub fn message(&self) -> (r: String)
        ensures
            match self {
                RecordError::InvalidTag => r@ == "invalid record type"@,
                RecordError::FieldParseFailure { record_type, field } => r@ == "failed to parse field `"@
                    + field@ + "` in "@ + record_type@ + " record."@,
            },
    {
        match self {
            RecordError::InvalidTag => "invalid record type".to_owned(),
            RecordError::FieldParseFailure { record_type, field } => {
                let mut r = "failed to parse field `".to_owned();
                r.append(field.as_str());
                r.append("` in ");
                r.append(record_type.as_str());
                r.append(" record.");
                r
            },
        }
    }
}

impl CompiledSchema {
    /// Parses one line: dispatches on its leading tag to the first record with
    /// that tag, then converts that record's fields left to right, stopping at
    /// the first that fails.
    pub fn parse(&self, line: &str) -> (r: Result<ParsedRecord, RecordError>)
        ensures
            match dispatch(*self, line@) {
                None => r matches Err(RecordError::InvalidTag),
                Some(k) => match first_failed_field(self.records[k].fields@, line@, 0) {
                    Some(j) => r matches Err(RecordError::FieldParseFailure { record_type, field })
                        && record_type@ == self.records[k].tag@
                        && field@ == self.records[k].fields[j].name@,
                    None => r matches Ok(p) && p.record == k
                        && p.variant_name@ == self.records[k].variant_name@
                        && p.values.len() == self.records[k].fields.len()
                        && forall|i: int| 0 <= i < p.values.len()
                            ==> value_matches(line@, self.records[k].fields[i], #[trigger] p.values[i]),
                },
            },
    {
        let n = line.unicode_len();
        if n < self.tag_len {
            return Err(RecordError::InvalidTag);
        }
        let tag = line.substring_char(0, self.tag_len).to_owned();
        let mut k: usize = 0;
        while k < self.records.len()
            invariant
                k <= self.records.len(),
                n == line@.len(),
                n >= self.tag_len,
                tag@ == line@.subrange(0, self.tag_len as int),
                dispatch(*self, line@) == first_tag_match(self.records@, tag@, k as int),
            decreases self.records.len() - k,
        {
            if self.records[k].tag == tag {
                return self.parse_fields(line, n, k);
            }
            k = k + 1;
        }
        Err(RecordError::InvalidTag)
    }

    /// Converts the fields of record `k`, left to right.
    fn parse_fields(&self, line: &str, line_len: usize, k: usize) -> (r: Result<ParsedRecord, RecordError>)
        requires
            k < self.records.len(),
            line_len == line@.len(),
        ensures
            match first_failed_field(self.records[k as int].fields@, line@, 0) {
                Some(j) => r matches Err(RecordError::FieldParseFailure { record_type, field })
                    && record_type@ == self.records[k as int].tag@
                    && field@ == self.records[k as int].fields[j].name@,
                None => r matches Ok(p) && p.record == k
                    && p.variant_name@ == self.records[k as int].variant_name@
                    && p.values.len() == self.records[k as int].fields.len()
                    && forall|i: int| 0 <= i < p.values.len()
                        ==> value_matches(line@, self.records[k as int].fields[i], #[trigger] p.values[i]),
            },
    {
        let rec = &self.records[k];
        let mut values: Vec<FieldValue> = Vec::new();
        let mut j: usize = 0;
        while j < rec.fields.len()
            invariant
                rec == self.records[k as int],
                line_len == line@.len(),
                j <= rec.fields.len(),
                values.len() == j,
                first_failed_field(rec.fields@, line@, 0) == first_failed_field(rec.fields@, line@, j as int),
                forall|i: int| 0 <= i < j ==> value_matches(line@, rec.fields[i], #[trigger] values[i]),
            decreases rec.fields.len() - j,
        {
            match convert_field(line, line_len, &rec.fields[j]) {
                Some(v) => {
                    values.push(v);
                },
                None => {
                    return Err(RecordError::FieldParseFailure {
                        record_type: rec.tag.clone(),
                        field: rec.fields[j].name.clone(),
                    });
                },
            }
            j = j + 1;
        }
        Ok(ParsedRecord { record: k, variant_name: rec.variant_name.clone(), values })
    }
}

} // verus!
