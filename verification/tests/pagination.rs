use api_core::error::FieldViolation;
use api_core::pagination::{one, ten, Paginate};
use api_core::validate::Validated;

#[test]
fn test_paginate_offset() {
    let mut paginate = Paginate { page: 1, size: 10 };

    assert_eq!(paginate.offset(), 0);

    paginate.page = 2;

    assert_eq!(paginate.offset(), 10);

    paginate.size = 5;

    assert_eq!(paginate.offset(), 5);

    paginate.page = 3;

    assert_eq!(paginate.offset(), 10);
}

#[test]
fn test_paginate_limit() {
    let paginate = Paginate { page: 1, size: 10 };

    assert_eq!(paginate.limit(), 10);
}

#[test]
fn test_paginate_defaults() {
    let paginate = Paginate { page: one(), size: ten() };

    assert_eq!(paginate.offset(), 0);
    assert_eq!(paginate.limit(), 10);
}

#[test]
fn test_paginate_in_range_is_clean() {
    let paginate = Paginate { page: 100, size: 100 };
    let violations: Vec<FieldViolation> = paginate.validate();

    assert!(violations.is_empty());
}

#[test]
fn test_paginate_out_of_range_two_violations() {
    let paginate = Paginate { page: 0, size: 101 };
    let violations = paginate.validate();

    assert_eq!(violations.len(), 2);
    assert_eq!(violations[0].field, "page");
    assert_eq!(violations[0].code, "range");
    assert_eq!(violations[1].field, "size");
    assert_eq!(violations[1].code, "range");
}
