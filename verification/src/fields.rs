//! Choosing the field of a type that holds a value of a given type, as the derives of
//! `Bounds`, `ObjectId` and `Visitable` do: a type gets the trait through the one field
//! whose type carries the expected name.
use vstd::prelude::*;

use vstd::string::StringExecFns;

verus! {

/// Why no single field could be chosen.
#[derive(Debug, Clone, Copy, PartialEq, Eq, Structural)]
pub enum FieldFindError {
    /// More than one field has the type; holds the index of the second one.
    Duplicate(usize),
    /// No field has the type.
    NotFound,
    /// The type has no field.
    Empty,
    /// The kind of type is not supported.
    Unsupported,
}

/// The field `j` has a type whose name (the last segment of its path) is `name`; a
/// field whose type is not a path has no name (`None`).
pub open spec fn field_has_type(field_types: Seq<Option<String>>, j: int, name: Seq<char>) -> bool {
    field_types[j] matches Some(t) && t@ == name
}

/// Exactly one of the fields `0..k` has a type named `name`.
pub open spec fn one_match_before(field_types: Seq<Option<String>>, k: int, name: Seq<char>) -> bool {
    exists|i: int|
        0 <= i < k && #[trigger] field_has_type(field_types, i, name) && forall|m: int|
            0 <= m < k && m != i ==> !field_has_type(field_types, m, name)
}

/// `r` is what looking up the field of type `name` gives: the only field of that type,
/// the second field of that type when there are several, `NotFound` when none has it,
/// `Empty` when there is no field.
pub open spec fn lookup_result(
    field_types: Seq<Option<String>>,
    name: Seq<char>,
    r: Result<usize, FieldFindError>,
) -> bool {
    match r {
        Ok(i) => i < field_types.len() && field_has_type(field_types, i as int, name) && forall|m: int|
            0 <= m < field_types.len() && m != i ==> !field_has_type(field_types, m, name),
        Err(FieldFindError::Empty) => field_types.len() == 0,
        Err(FieldFindError::NotFound) => field_types.len() > 0 && forall|m: int|
            0 <= m < field_types.len() ==> !field_has_type(field_types, m, name),
        Err(FieldFindError::Duplicate(k)) => k < field_types.len() && field_has_type(field_types, k as int, name)
            && one_match_before(field_types, k as int, name),
        Err(FieldFindError::Unsupported) => false,
    }
}

/// A lookup has one result: [`lookup_result`] holds of at most one value.
pub proof fn lemma_lookup_unique(
    field_types: Seq<Option<String>>,
    name: Seq<char>,
    a: Result<usize, FieldFindError>,
    b: Result<usize, FieldFindError>,
)
    requires
        lookup_result(field_types, name, a),
        lookup_result(field_types, name, b),
    ensures
        a == b,
{
    match (a, b) {
        (Ok(i), Ok(j)) => {
            if i != j {
                assert(field_has_type(field_types, j as int, name));
            }
        },
        (Ok(i), Err(FieldFindError::Duplicate(k))) => {
            lemma_duplicate_has_two(field_types, name, k as int, i as int);
        },
        (Err(FieldFindError::Duplicate(k)), Ok(i)) => {
            lemma_duplicate_has_two(field_types, name, k as int, i as int);
        },
        (Ok(i), _) => {
            assert(field_has_type(field_types, i as int, name));
        },
        (_, Ok(j)) => {
            assert(field_has_type(field_types, j as int, name));
        },
        (Err(FieldFindError::Duplicate(k1)), Err(FieldFindError::Duplicate(k2))) => {
            if k1 < k2 {
                lemma_duplicate_below(field_types, name, k1 as int, k2 as int);
            } else if k2 < k1 {
                lemma_duplicate_below(field_types, name, k2 as int, k1 as int);
            }
        },
        (Err(FieldFindError::Duplicate(k)), _) => {
            assert(field_has_type(field_types, k as int, name));
        },
        (_, Err(FieldFindError::Duplicate(k))) => {
            assert(field_has_type(field_types, k as int, name));
        },
        _ => {},
    }
}

/// A field that is the second of its type is not the only field of that type.
proof fn lemma_duplicate_has_two(field_types: Seq<Option<String>>, name: Seq<char>, k: int, i: int)
    requires
        0 <= k < field_types.len(),
        field_has_type(field_types, k, name),
        one_match_before(field_types, k, name),
        0 <= i < field_types.len(),
        field_has_type(field_types, i, name),
    ensures
        exists|m: int| 0 <= m < field_types.len() && m != i && field_has_type(field_types, m, name),
{
    let w = choose|w: int|
        0 <= w < k && #[trigger] field_has_type(field_types, w, name) && forall|m: int|
            0 <= m < k && m != w ==> !field_has_type(field_types, m, name);
    if w == i {
        assert(field_has_type(field_types, k, name));
    } else {
        assert(field_has_type(field_types, w, name));
    }
}

/// Past the second field of a type, there are two fields of that type before.
proof fn lemma_duplicate_below(field_types: Seq<Option<String>>, name: Seq<char>, k1: int, k2: int)
    requires
        0 <= k1 < k2 < field_types.len(),
        field_has_type(field_types, k1, name),
        one_match_before(field_types, k1, name),
    ensures
        !one_match_before(field_types, k2, name),
{
    if one_match_before(field_types, k2, name) {
        let w1 = choose|w: int|
            0 <= w < k1 && #[trigger] field_has_type(field_types, w, name) && forall|m: int|
                0 <= m < k1 && m != w ==> !field_has_type(field_types, m, name);
        let w2 = choose|w: int|
            0 <= w < k2 && #[trigger] field_has_type(field_types, w, name) && forall|m: int|
                0 <= m < k2 && m != w ==> !field_has_type(field_types, m, name);
        assert(field_has_type(field_types, w1, name));
        assert(field_has_type(field_types, k1, name));
    }
}

/// Where a type takes its bounds from.
#[derive(Debug, Clone, Copy, PartialEq, Eq, Structural)]
pub enum BoundsSource {
    /// The field (by index) of type `Rect`.
    Rect(usize),
    /// The fields (by index) of types `Position` and `Size`.
    PositionSize(usize, usize),
}

/// The source of a type's bounds, from the lookups of its `Rect`, `Position` and `Size`
/// fields: the `Rect` field when there is one; without any, both the `Position` and the
/// `Size` fields; the error of the lookup that failed otherwise (`NotFound` when there
/// is neither a `Position` nor a `Size` field).
pub open spec fn bounds_source_spec(
    rect: Result<usize, FieldFindError>,
    pos: Result<usize, FieldFindError>,
    size: Result<usize, FieldFindError>,
) -> Result<BoundsSource, FieldFindError> {
    match rect {
        Ok(i) => Ok(BoundsSource::Rect(i)),
        Err(FieldFindError::NotFound) => match (pos, size) {
            (Ok(p), Ok(s)) => Ok(BoundsSource::PositionSize(p, s)),
            (Ok(_), Err(e)) => Err(e),
            (Err(e), Ok(_)) => Err(e),
            (Err(_), Err(_)) => Err(FieldFindError::NotFound),
        },
        Err(e) => Err(e),
    }
}

/// Compares two strings character by character.
fn same_text(a: &str, b: &str) -> (r: bool)
    ensures
        r == (a@ == b@),
{
    let n = a.unicode_len();
    if n != b.unicode_len() {
        return false;
    }
    let mut i: usize = 0;
    while i < n
        invariant
            n == a@.len(),
            n == b@.len(),
            i <= n,
            forall|m: int| 0 <= m < i ==> a@[m] == b@[m],
        decreases n - i,
    {
        if a.get_char(i) != b.get_char(i) {
            return false;
        }
        i = i + 1;
    }
    assert(a@ =~= b@);
    true
}

/// Finds the only field whose type is named `name`, given the type name of each field
/// in order: its index, or why there is none.
pub fn find_field(field_types: &Vec<Option<String>>, name: &str) -> (r: Result<usize, FieldFindError>)
    ensures
        (r == Err::<usize, FieldFindError>(FieldFindError::Empty)) == (field_types@.len() == 0),
        r matches Ok(i) ==> {
            &&& i < field_types@.len()
            &&& field_has_type(field_types@, i as int, name@)
            &&& forall|m: int|
                0 <= m < field_types@.len() && m != i ==> !field_has_type(field_types@, m, name@)
        },
        r == Err::<usize, FieldFindError>(FieldFindError::NotFound) ==> field_types@.len() > 0 && forall|m: int|
            0 <= m < field_types@.len() ==> !field_has_type(field_types@, m, name@),
        r matches Err(FieldFindError::Duplicate(k)) ==> {
            &&& k < field_types@.len()
            &&& field_has_type(field_types@, k as int, name@)
            &&& one_match_before(field_types@, k as int, name@)
        },
        !(r matches Err(FieldFindError::Unsupported)),
        lookup_result(field_types@, name@, r),
{
    let n = field_types.len();
    if n == 0 {
        return Err(FieldFindError::Empty);
    }
    let mut found: Option<usize> = None;
    let mut j: usize = 0;
    while j < n
        invariant
            n == field_types@.len(),
            n > 0,
            j <= n,
            found matches Some(i) ==> {
                &&& i < j
                &&& field_has_type(field_types@, i as int, name@)
                &&& forall|m: int| 0 <= m < j && m != i ==> !field_has_type(field_types@, m, name@)
            },
            found is None ==> forall|m: int| 0 <= m < j ==> !field_has_type(field_types@, m, name@),
        decreases n - j,
    {
        let is_match = match &field_types[j] {
            Some(t) => same_text(t.as_str(), name),
            None => false,
        };
        if is_match {
            if let Some(i) = found {
                assert(field_has_type(field_types@, i as int, name@));
                return Err(FieldFindError::Duplicate(j));
            }
            found = Some(j);
        }
        j = j + 1;
    }
    match found {
        Some(i) => Ok(i),
        None => Err(FieldFindError::NotFound),
    }
}

/// Finds the field of one enum variant: the only field whose type is named `name`, or
/// the first field when none has that type.
pub fn find_variant_field(field_types: &Vec<Option<String>>, name: &str) -> (r: Result<usize, FieldFindError>)
    ensures
        find_variant_spec(field_types@, name@, r),
{
    match find_field(field_types, name) {
        Err(FieldFindError::NotFound) => Ok(0),
        other => other,
    }
}

/// What [`find_variant_field`] returns: what [`find_field`] does, except that the
/// first field is chosen when no field has the type.
pub open spec fn find_variant_spec(
    field_types: Seq<Option<String>>,
    name: Seq<char>,
    r: Result<usize, FieldFindError>,
) -> bool {
    &&& (r == Err::<usize, FieldFindError>(FieldFindError::Empty)) == (field_types.len() == 0)
    &&& r matches Ok(i) ==> i < field_types.len() && ((field_has_type(field_types, i as int, name) && forall|m: int|
        0 <= m < field_types.len() && m != i ==> !field_has_type(field_types, m, name)) || (i == 0 && forall|m: int|
        0 <= m < field_types.len() ==> !field_has_type(field_types, m, name)))
    &&& (field_types.len() > 0 && forall|m: int|
        0 <= m < field_types.len() ==> !field_has_type(field_types, m, name)) ==> r == Ok::<usize, FieldFindError>(0)
    &&& r matches Err(FieldFindError::Duplicate(k)) ==> k < field_types.len() && field_has_type(field_types, k as int, name)
        && one_match_before(field_types, k as int, name)
    &&& !(r matches Err(FieldFindError::NotFound))
    &&& !(r matches Err(FieldFindError::Unsupported))
}

/// Finds where a type with fields of the given types takes its bounds from, as the
/// `Bounds` derive does: its `Rect` field, or else its `Position` and `Size` fields.
pub fn find_bounds_fields(field_types: &Vec<Option<String>>) -> (r: Result<BoundsSource, FieldFindError>)
    ensures
        exists|
            rect: Result<usize, FieldFindError>,
            pos: Result<usize, FieldFindError>,
            size: Result<usize, FieldFindError>,
        |
            lookup_result(field_types@, "Rect"@, rect) && lookup_result(field_types@, "Position"@, pos)
                && lookup_result(field_types@, "Size"@, size) && #[trigger] bounds_source_spec(rect, pos, size)
                == r,
{
    let rect = find_field(field_types, "Rect");
    let pos = find_field(field_types, "Position");
    let size = find_field(field_types, "Size");
    let r = match rect {
        Ok(i) => Ok(BoundsSource::Rect(i)),
        Err(FieldFindError::NotFound) => match (pos, size) {
            (Ok(p), Ok(s)) => Ok(BoundsSource::PositionSize(p, s)),
            (Ok(_), Err(e)) => Err(e),
            (Err(e), Ok(_)) => Err(e),
            (Err(_), Err(_)) => Err(FieldFindError::NotFound),
        },
        Err(e) => Err(e),
    };
    assert(bounds_source_spec(rect, pos, size) == r);
    r
}

/// How a field holds child widgets that a `Visitable` type visits.
#[derive(Debug, Clone, Copy, PartialEq, Eq, Structural)]
pub enum ChildField {
    /// The field is one child widget.
    Single,
    /// The field is a collection of child widgets, visited in its own order.
    Collection,
}

/// The child fields among the fields `0..n`, in field order, each with its index.
pub open spec fn child_fields_upto(tags: Seq<Option<ChildField>>, n: int) -> Seq<(usize, ChildField)>
    decreases n,
{
    if n <= 0 {
        seq![]
    } else {
        child_fields_upto(tags, n - 1) + match tags[n - 1] {
            Some(c) => seq![((n - 1) as usize, c)],
            None => seq![],
        }
    }
}

/// Which fields are visited and in what order: exactly the tagged fields among
/// `0..n`, each once with its tag, in increasing field order.
pub proof fn lemma_child_fields(tags: Seq<Option<ChildField>>, n: int)
    requires
        0 <= n <= tags.len(),
        n <= usize::MAX,
    ensures
        forall|j: int|
            0 <= j < child_fields_upto(tags, n).len() ==> {
                let (i, c) = #[trigger] child_fields_upto(tags, n)[j];
                &&& i < n
                &&& tags[i as int] == Some(c)
            },
        forall|i: int, c: ChildField|
            0 <= i < n && tags[i] == Some(c) ==> exists|j: int|
                0 <= j < child_fields_upto(tags, n).len() && #[trigger] child_fields_upto(tags, n)[j] == (
                    i as usize,
                    c,
                ),
        forall|j1: int, j2: int|
            0 <= j1 < j2 < child_fields_upto(tags, n).len() ==> #[trigger] child_fields_upto(tags, n)[j1].0
                < #[trigger] child_fields_upto(tags, n)[j2].0,
    decreases n,
{
    if n > 0 {
        lemma_child_fields(tags, n - 1);
        let prev = child_fields_upto(tags, n - 1);
        let cur = child_fields_upto(tags, n);
        assert forall|j: int| 0 <= j < prev.len() implies #[trigger] cur[j] == prev[j] by {}
        assert forall|i: int, c: ChildField| 0 <= i < n && tags[i] == Some(c) implies exists|j: int|
            0 <= j < cur.len() && #[trigger] cur[j] == (i as usize, c) by {
            if i < n - 1 {
                let j = choose|j: int| 0 <= j < prev.len() && #[trigger] prev[j] == (i as usize, c);
                assert(cur[j] == prev[j]);
            } else {
                assert(cur[prev.len() as int] == (i as usize, c));
            }
        }
        assert forall|j1: int, j2: int| 0 <= j1 < j2 < cur.len() implies #[trigger] cur[j1].0
            < #[trigger] cur[j2].0 by {
            assert(cur[j1] == prev[j1]);
            if j2 < prev.len() {
                assert(cur[j2] == prev[j2]);
            }
        }
    }
}

/// The order in which the `Visitable` derive visits the children of a type, given the
/// child tag of each field (`None` for a field that holds no child): the tagged fields,
/// in field order.
pub fn visit_order(tags: &Vec<Option<ChildField>>) -> (r: Vec<(usize, ChildField)>)
    ensures
        r@ == child_fields_upto(tags@, tags@.len() as int),
{
    let mut r: Vec<(usize, ChildField)> = Vec::new();
    let mut i: usize = 0;
    while i < tags.len()
        invariant
            i <= tags@.len(),
            r@ == child_fields_upto(tags@, i as int),
        decreases tags@.len() - i,
    {
        match tags[i] {
            Some(c) => {
                r.push((i, c));
            },
            None => {},
        }
        proof {
            assert(r@ =~= child_fields_upto(tags@, i + 1));
        }
        i = i + 1;
    }
    r
}

/// The order in which the `Visitable` derive visits the children of a type backwards:
/// the tagged fields, last field first.
pub fn visit_order_rev(tags: &Vec<Option<ChildField>>) -> (r: Vec<(usize, ChildField)>)
    ensures
        r@ == child_fields_upto(tags@, tags@.len() as int).reverse(),
{
    let fwd = visit_order(tags);
    let n = fwd.len();
    let mut r: Vec<(usize, ChildField)> = Vec::new();
    let mut j: usize = n;
    while j > 0
        invariant
            j <= n == fwd@.len(),
            r@.len() == n - j,
            forall|m: int| 0 <= m < r@.len() ==> #[trigger] r@[m] == fwd@[n - 1 - m],
        decreases j,
    {
        j = j - 1;
        r.push(fwd[j]);
    }
    assert(r@ =~= fwd@.reverse());
    r
}

impl FieldFindError {
    /// The message of the error, for a field of type `field_type` looked for while
    /// deriving `trait_name`; `target_type` is the type the derive is applied to.
    pub fn message(&self, field_type: &str, trait_name: &str, target_type: &str) -> (r: String)
        ensures
            *self is Duplicate ==> r@ == "found multiple `"@ + field_type@ + "` typed fields while deriving `"@
                + trait_name@ + "`"@,
            *self is NotFound ==> r@ == "field with `"@ + field_type@ + "` type not found while deriving `"@
                + trait_name@ + "`"@,
            *self is Empty ==> r@ == "can't derive `"@ + trait_name@ + "` on empty type"@,
            *self is Unsupported ==> r@ == "can't derive `"@ + trait_name@ + "` for `"@ + target_type@ + "`"@,
    {
        match self {
            FieldFindError::Duplicate(_) => {
                let mut m = String::from_str("found multiple `");
                m.append(field_type);
                m.append("` typed fields while deriving `");
                m.append(trait_name);
                m.append("`");
                m
            },
            FieldFindError::NotFound => {
                let mut m = String::from_str("field with `");
                m.append(field_type);
                m.append("` type not found while deriving `");
                m.append(trait_name);
                m.append("`");
                m
            },
            FieldFindError::Empty => {
                let mut m = String::from_str("can't derive `");
                m.append(trait_name);
                m.append("` on empty type");
                m
            },
            FieldFindError::Unsupported => {
                let mut m = String::from_str("can't derive `");
                m.append(trait_name);
                m.append("` for `");
                m.append(target_type);
                m.append("`");
                m
            },
        }
    }
}

} // verus!
