use vstd::prelude::*;

use crate::schema::{FieldDecl, FieldKind, PositionHint, SchemaError};

verus! {

/// The running state while one field's hints are folded.
#[derive(Clone, Copy, Debug, PartialEq, Eq, Structural)]
pub struct HintState {
    pub from: usize,
    pub to: usize,
    pub length: usize,
    /// The variant's running cursor.
    pub cursor: usize,
}

/// A field with its resolved half-open range `[from, to)`.
#[derive(Clone, Debug)]
pub struct ResolvedField {
    pub name: String,
    pub kind: FieldKind,
    pub from: usize,
    pub to: usize,
}

impl HintState {
    /// The state before any hint: an empty range at the cursor.
    pub open spec fn at(cursor: usize) -> HintState {
        HintState { from: cursor, to: cursor, length: 0, cursor }
    }

    pub fn start(cursor: usize) -> (r: HintState)
        ensures
            r == HintState::at(cursor),
    {
        HintState { from: cursor, to: cursor, length: 0, cursor }
    }
}

/// One hint applied to the state; `None` where the range would end before its
/// start or past `usize::MAX`.
pub open spec fn apply_hint(st: HintState, h: PositionHint) -> Option<HintState> {
    match h {
        PositionHint::StartsAt(n) => if n + st.length <= usize::MAX {
            Some(HintState { from: n, to: (n + st.length) as usize, length: st.length, cursor: st.cursor })
        } else {
            None
        },
        PositionHint::EndsAt(n) => if st.from <= n {
            Some(HintState { from: st.from, to: n, length: (n - st.from) as usize, cursor: n })
        } else {
            None
        },
        PositionHint::Length(n) => if st.from + n <= usize::MAX {
            Some(HintState { from: st.from, to: (st.from + n) as usize, length: n, cursor: (st.from + n) as usize })
        } else {
            None
        },
    }
}

/// The hints from index `i` on, folded left to right over `st`.
pub open spec fn fold_hints(hints: Seq<PositionHint>, i: int, st: HintState) -> Option<HintState>
    decreases hints.len() - i,
{
    if i >= hints.len() {
        Some(st)
    } else {
        match apply_hint(st, hints[i]) {
            Some(next) => fold_hints(hints, i + 1, next),
            None => None,
        }
    }
}

/// The variant's cursor when field `j` is reached: 0 for the first field.
pub open spec fn cursor_before(fields: Seq<FieldDecl>, j: int) -> usize
    decreases j,
{
    if j <= 0 {
        0
    } else {
        match fold_hints(fields[j - 1].hints@, 0, HintState::at(cursor_before(fields, j - 1))) {
            Some(st) => st.cursor,
            None => 0,
        }
    }
}

/// The state after field `j`'s hints, started at the cursor that the fields before it left.
pub open spec fn field_state(fields: Seq<FieldDecl>, j: int) -> Option<HintState> {
    fold_hints(fields[j].hints@, 0, HintState::at(cursor_before(fields, j)))
}

/// The defect of field `j` of variant `v`, if it has one.
pub open spec fn field_error(fields: Seq<FieldDecl>, v: int, j: int) -> Option<SchemaError> {
    match field_state(fields, j) {
        None => Some(SchemaError::FieldRangeInvalid { variant: v as usize, field: j as usize }),
        Some(st) => if st.to == st.from {
            Some(SchemaError::ZeroLengthField { variant: v as usize, field: j as usize })
        } else {
            None
        },
    }
}

/// The defect of the first field from index `j` on that has one.
pub open spec fn first_field_error(fields: Seq<FieldDecl>, v: int, j: int) -> Option<SchemaError>
    decreases fields.len() - j,
{
    if j >= fields.len() {
        None
    } else {
        match field_error(fields, v, j) {
            Some(e) => Some(e),
            None => first_field_error(fields, v, j + 1),
        }
    }
}

/// `rf` is field `j` of `fields`, resolved.
pub open spec fn field_resolved(fields: Seq<FieldDecl>, j: int, rf: ResolvedField) -> bool {
    &&& field_state(fields, j) is Some
    &&& rf.from == field_state(fields, j)->0.from
    &&& rf.to == field_state(fields, j)->0.to
    &&& rf.name@ == fields[j].name@
    &&& rf.kind == fields[j].kind
}

/// Folding keeps `to == from + length`.
pub proof fn lemma_fold_keeps_span(hints: Seq<PositionHint>, i: int, st: HintState)
    requires
        st.to == st.from + st.length,
    ensures
        fold_hints(hints, i, st) matches Some(r) ==> r.to == r.from + r.length,
    decreases hints.len() - i,
{
    if i < hints.len() {
        if let Some(next) = apply_hint(st, hints[i]) {
            lemma_fold_keeps_span(hints, i + 1, next);
        }
    }
}

/// Applies one hint to the state, following `apply_hint`.
pub fn apply_position_hint(st: HintState, h: PositionHint) -> (r: Option<HintState>)
    ensures
        r == apply_hint(st, h),
{
    match h {
        PositionHint::StartsAt(n) => {
            if n <= usize::MAX - st.length {
                Some(HintState { from: n, to: n + st.length, length: st.length, cursor: st.cursor })
            } else {
                None
            }
        },
        PositionHint::EndsAt(n) => {
            if st.from <= n {
                Some(HintState { from: st.from, to: n, length: n - st.from, cursor: n })
            } else {
                None
            }
        },
        PositionHint::Length(n) => {
            if n <= usize::MAX - st.from {
                Some(HintState { from: st.from, to: st.from + n, length: n, cursor: st.from + n })
            } else {
                None
            }
        },
    }
}

/// Folds a field's hints, in declaration order, starting from the cursor.
pub fn resolve_hints(hints: &Vec<PositionHint>, cursor: usize) -> (r: Option<HintState>)
    ensures
        r == fold_hints(hints@, 0, HintState::at(cursor)),
        r matches Some(st) ==> st.to == st.from + st.length,
{
    proof {
        lemma_fold_keeps_span(hints@, 0, HintState::at(cursor));
    }
    let mut st = HintState::start(cursor);
    let mut i: usize = 0;
    while i < hints.len()
        invariant
            i <= hints.len(),
            fold_hints(hints@, 0, HintState::at(cursor)) == fold_hints(hints@, i as int, st),
        decreases hints.len() - i,
    {
        match apply_position_hint(st, hints[i]) {
            Some(next) => {
                st = next;
            },
            None => {
                return None;
            },
        }
        i = i + 1;
    }
    Some(st)
}

/// Resolves the fields of variant `v` in declaration order, with a cursor that
/// starts at 0. Stops at the first field whose range is invalid or empty.
pub fn resolve_fields(fields: &Vec<FieldDecl>, v: usize) -> (r: Result<Vec<ResolvedField>, SchemaError>)
    ensures
        match r {
            Ok(out) => {
                &&& first_field_error(fields@, v as int, 0) is None
                &&& out.len() == fields.len()
                &&& forall|j: int| 0 <= j < out.len() ==> field_resolved(fields@, j, #[trigger] out[j])
                &&& forall|j: int| 0 <= j < out.len() ==> (#[trigger] out[j]).from < out[j].to
            },
            Err(e) => first_field_error(fields@, v as int, 0) == Some(e),
        },
{
    let mut out: Vec<ResolvedField> = Vec::new();
    let mut cursor: usize = 0;
    let mut i: usize = 0;
    while i < fields.len()
        invariant
            i <= fields.len(),
            out.len() == i,
            cursor == cursor_before(fields@, i as int),
            first_field_error(fields@, v as int, 0) == first_field_error(fields@, v as int, i as int),
            forall|j: int| 0 <= j < i ==> field_resolved(fields@, j, #[trigger] out[j]),
            forall|j: int| 0 <= j < i ==> (#[trigger] out[j]).from < out[j].to,
        decreases fields.len() - i,
    {
        let f = &fields[i];
        let st = match resolve_hints(&f.hints, cursor) {
            Some(st) => st,
            None => {
                return Err(SchemaError::FieldRangeInvalid { variant: v, field: i });
            },
        };
        if st.to == st.from {
            return Err(SchemaError::ZeroLengthField { variant: v, field: i });
        }
        out.push(ResolvedField { name: f.name.clone(), kind: f.kind, from: st.from, to: st.to });
        cursor = st.cursor;
        i = i + 1;
    }
    Ok(out)
}

} // verus!
