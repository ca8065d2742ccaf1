use widgets::fields::{
    find_bounds_fields, find_field, find_variant_field, visit_order, visit_order_rev, BoundsSource, ChildField,
    FieldFindError,
};

fn names(v: &[Option<&str>]) -> Vec<Option<String>> {
    v.iter().map(|n| n.map(|s| s.to_string())).collect()
}

#[test]
fn finds_the_only_field_of_the_type() {
    let f = names(&[Some("String"), None, Some("Rect"), Some("u32")]);
    assert_eq!(find_field(&f, "Rect"), Ok(2));
    assert_eq!(find_field(&f, "WidgetId"), Err(FieldFindError::NotFound));
    assert_eq!(find_field(&Vec::new(), "Rect"), Err(FieldFindError::Empty));
}

#[test]
fn reports_the_second_field_of_the_type() {
    let f = names(&[Some("Rect"), Some("u8"), Some("Rect"), Some("Rect")]);
    assert_eq!(find_field(&f, "Rect"), Err(FieldFindError::Duplicate(2)));
}

#[test]
fn variant_falls_back_to_first_field() {
    let f = names(&[Some("u8"), Some("Rect")]);
    assert_eq!(find_variant_field(&f, "Rect"), Ok(1));
    assert_eq!(find_variant_field(&f, "Size"), Ok(0));
    assert_eq!(find_variant_field(&Vec::new(), "Size"), Err(FieldFindError::Empty));
}

#[test]
fn field_error_messages() {
    assert_eq!(
        FieldFindError::Duplicate(1).message("Rect", "Bounds", "Foo"),
        "found multiple `Rect` typed fields while deriving `Bounds`"
    );
    assert_eq!(
        FieldFindError::NotFound.message("WidgetId", "ObjectId", "Foo"),
        "field with `WidgetId` type not found while deriving `ObjectId`"
    );
    assert_eq!(FieldFindError::Empty.message("Rect", "Bounds", "Foo"), "can't derive `Bounds` on empty type");
    assert_eq!(FieldFindError::Unsupported.message("Rect", "Bounds", "Foo"), "can't derive `Bounds` for `Foo`");
}

#[test]
fn bounds_from_rect_or_position_and_size() {
    let f = names(&[Some("WidgetId"), Some("Rect")]);
    assert_eq!(find_bounds_fields(&f), Ok(BoundsSource::Rect(1)));
    let f = names(&[Some("Size"), Some("WidgetId"), Some("Position")]);
    assert_eq!(find_bounds_fields(&f), Ok(BoundsSource::PositionSize(2, 0)));
    let f = names(&[Some("Position"), Some("WidgetId")]);
    assert_eq!(find_bounds_fields(&f), Err(FieldFindError::NotFound));
    let f = names(&[Some("Position"), Some("Size"), Some("Size")]);
    assert_eq!(find_bounds_fields(&f), Err(FieldFindError::Duplicate(2)));
    let f = names(&[Some("u8")]);
    assert_eq!(find_bounds_fields(&f), Err(FieldFindError::NotFound));
    let f = names(&[Some("Rect"), Some("Rect")]);
    assert_eq!(find_bounds_fields(&f), Err(FieldFindError::Duplicate(1)));
    assert_eq!(find_bounds_fields(&Vec::new()), Err(FieldFindError::Empty));
}

#[test]
fn children_are_visited_in_field_order() {
    let tags = vec![None, Some(ChildField::Single), None, Some(ChildField::Collection), Some(ChildField::Single)];
    assert_eq!(
        visit_order(&tags),
        vec![(1, ChildField::Single), (3, ChildField::Collection), (4, ChildField::Single)]
    );
    assert_eq!(
        visit_order_rev(&tags),
        vec![(4, ChildField::Single), (3, ChildField::Collection), (1, ChildField::Single)]
    );
    assert!(visit_order(&vec![None, None]).is_empty());
}
