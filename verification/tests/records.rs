use magistratures::record::{column_names, ParsedMagistrature};

#[test]
fn new_record_holds_nothing() {
    let record = ParsedMagistrature::new();
    assert_eq!(record.university, None);
    assert_eq!(record.faculty, None);
    assert_eq!(record.name, None);
    assert_eq!(record.comment, None);
    assert!(record.links.is_empty());
}

#[test]
fn first_text_starts_the_comment_without_a_separator() {
    let mut record = ParsedMagistrature::new();
    record.push_comment_text("first");
    assert_eq!(record.comment, Some("first".to_string()));
}

#[test]
fn later_text_is_appended_as_it_is() {
    let mut record = ParsedMagistrature::new();
    record.push_comment_text("first");
    record.push_comment_text("second");
    record.push_comment_text("");
    assert_eq!(record.comment, Some("firstsecond".to_string()));
}

#[test]
fn empty_text_still_starts_the_comment() {
    let mut record = ParsedMagistrature::new();
    record.push_comment_text("");
    assert_eq!(record.comment, Some(String::new()));
}

#[test]
fn first_subheader_is_a_line_of_its_own() {
    let mut record = ParsedMagistrature::new();
    record.push_comment_subheader("Pros");
    assert_eq!(record.comment, Some("Pros\n".to_string()));
}

#[test]
fn later_subheader_is_parted_from_the_text_before_it() {
    let mut record = ParsedMagistrature::new();
    record.push_comment_text("intro");
    record.push_comment_subheader("Pros");
    record.push_comment_text("good");
    record.push_comment_subheader("Cons");
    assert_eq!(record.comment, Some("intro\nPros\ngood\nCons\n".to_string()));
}

#[test]
fn comment_pushes_leave_the_other_fields_alone() {
    let mut record = ParsedMagistrature::new();
    record.university = Some("U".to_string());
    record.faculty = Some("F".to_string());
    record.name = Some("N".to_string());
    record.links.push("http://a".to_string());
    record.push_comment_text("t");
    record.push_comment_subheader("h");
    assert_eq!(record.university, Some("U".to_string()));
    assert_eq!(record.faculty, Some("F".to_string()));
    assert_eq!(record.name, Some("N".to_string()));
    assert_eq!(record.links, vec!["http://a".to_string()]);
    assert_eq!(record.comment, Some("t\nh\n".to_string()));
}

#[test]
fn comment_only_grows() {
    let mut record = ParsedMagistrature::new();
    let mut seen = String::new();
    for piece in ["a", "bc", "", "d\n"] {
        record.push_comment_text(piece);
        let now = record.comment.clone().unwrap();
        assert!(now.starts_with(&seen));
        seen = now;
        record.push_comment_subheader(piece);
        let now = record.comment.clone().unwrap();
        assert!(now.starts_with(&seen));
        seen = now;
    }
}

#[test]
fn links_cell_of_no_links_is_empty() {
    let record = ParsedMagistrature::new();
    assert_eq!(record.links_cell(), "");
}

#[test]
fn links_cell_of_one_link_is_the_link() {
    let mut record = ParsedMagistrature::new();
    record.links.push("http://example.com".to_string());
    assert_eq!(record.links_cell(), "http://example.com");
}

#[test]
fn links_cell_joins_links_by_line_breaks() {
    let mut record = ParsedMagistrature::new();
    record.links.push("http://a".to_string());
    record.links.push("".to_string());
    record.links.push("http://c".to_string());
    assert_eq!(record.links_cell(), "http://a\n\nhttp://c");
}

#[test]
fn columns_are_five_in_fixed_order() {
    assert_eq!(
        column_names(),
        vec!["ВУЗ", "Факультет", "Магистратура", "Комментарий", "Ссылки"]
    );
}
