//! Tests of the naming engine: template compilation, formatting,
//! sanitization and truncation.

use redditrip::{clean, FieldValue, Item, Title};

fn item_with(entries: &[(&str, FieldValue)]) -> Item {
    let mut item = Item::new();
    for (name, value) in entries {
        item.push_entry((*name).to_string(), value.clone());
    }
    item
}

#[test]
fn format_no_fields() {
    let data = "Lorem ipsum";
    let fmt = Title::new(data);
    assert_eq!(data, fmt.format(&Item::new(), 0xf));

    let data = "Lorem ipsum";
    let fmt = Title::new(data);
    assert_eq!("L", fmt.format(&Item::new(), 1));
}

#[test]
fn format_overflowing_static() {
    let data = "1234 {test}";
    let fmt = Title::new(data);

    assert_eq!("12", fmt.format(&Item::new(), 2));
}

#[test]
fn format_null_field() {
    let data = "{test}";
    let fmt = Title::new(data);

    assert_eq!("", fmt.format(&Item::new(), 2));

    let data = "Lorem{test}ipsum";
    let fmt = Title::new(data);

    assert_eq!("Loremipsum", fmt.format(&Item::new(), 0xf));
}

#[test]
fn format_replace() {
    let data = "{test} ipsum";
    let fmt = Title::new(data);

    assert_eq!(
        "Lorem ipsum",
        fmt.format(
            &item_with(&[("test", FieldValue::Text("Lorem".to_string()))]),
            0xf
        )
    );

    let data = "{test} ipsum {test}";
    let fmt = Title::new(data);

    assert_eq!(
        "Lorem ipsum Lorem",
        fmt.format(
            &item_with(&[("test", FieldValue::Text("Lorem".to_string()))]),
            0xff
        )
    );

    let data = "{test} ipsum {id}";
    let fmt = Title::new(data);

    assert_eq!(
        "Lorem ipsum dolor sit amet",
        fmt.format(
            &item_with(&[
                ("test", FieldValue::Text("Lorem".to_string())),
                ("id", FieldValue::Text("dolor sit amet".to_string())),
            ]),
            0xff
        )
    );
}

#[test]
fn format_clean() {
    let data = "Lorem/ipsum\\dolor|sit?amet,<consectetur>adipiscing:elit.*Vestibulum\"ut nisl.";
    let fmt = Title::new(data);

    assert_eq!(
        "Lorem_ipsum_dolor_sit_amet,_consectetur_adipiscing_elit._Vestibulum_ut nisl.",
        fmt.format(&Item::new(), 0xff)
    );

    let data = "Lorem {test}";
    let fmt = Title::new(data);

    assert_eq!(
        "Lorem ______",
        fmt.format(
            &item_with(&[("test", FieldValue::Text("/\\|?<>".to_string()))]),
            0xf
        )
    );
}

#[test]
fn format_explicit_null_value() {
    let fmt = Title::new("1234 {test}");
    let item = item_with(&[("test", FieldValue::Null)]);
    assert_eq!("12", fmt.format(&item, 2));
    assert_eq!("1234 ", fmt.format(&item, 0xff));
}

#[test]
fn clean_preserves_length_and_is_idempotent() {
    let inputs = [
        "Lorem/ipsum\\dolor|sit?amet",
        "<>:*\"",
        "plain name",
        "",
        "a/b/c",
    ];
    for input in inputs {
        let once = clean(input);
        assert_eq!(once.chars().count(), input.chars().count());
        let twice = clean(&once);
        assert_eq!(once, twice);
    }
    assert_eq!("a_b_c", clean("a/b\\c"));
}

#[test]
fn utilizes_id_tracks_the_id_placeholder() {
    assert!(Title::new("{id}-{title}").utilizes_id());
    assert!(!Title::new("{title} only").utilizes_id());
    // `{id}` inside a larger unknown token still counts: the scan looks for
    // the placeholder anywhere in the template.
    assert!(Title::new("x{id}y").utilizes_id());
}

#[test]
fn recognized_fields_in_vocabulary_order() {
    let fmt = Title::new("{title}-{id}-{author}");
    let fields: Vec<String> = fmt.iter().clone();
    assert_eq!(fields, vec!["author", "id", "title"]);
}

#[test]
fn unknown_placeholders_stay_literal() {
    let fmt = Title::new("{unknown} {test}");
    let item = item_with(&[("test", FieldValue::Text("x".to_string()))]);
    assert_eq!("{unknown} x", fmt.format(&item, 0xff));
}

#[test]
fn first_entry_wins_on_duplicate_fields() {
    let fmt = Title::new("{test}");
    let item = item_with(&[
        ("test", FieldValue::Text("first".to_string())),
        ("test", FieldValue::Text("second".to_string())),
    ]);
    assert_eq!("first", fmt.format(&item, 0xff));
}

#[test]
fn values_are_sanitized_but_placeholders_in_values_stay() {
    let fmt = Title::new("{test}");
    let item = item_with(&[("test", FieldValue::Text("{id}/x".to_string()))]);
    // The substituted text is sanitized, and is not scanned again for
    // placeholders.
    assert_eq!("{id}_x", fmt.format(&item, 0xff));
}
