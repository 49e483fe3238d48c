use magistratures::record::{column_names, ParsedMagistrature};

fn record(
    university: Option<&str>,
    faculty: Option<&str>,
    name: Option<&str>,
    comment: Option<&str>,
    links: &[&str],
) -> ParsedMagistrature {
    let mut record = ParsedMagistrature::new();
    record.university = university.map(|s| s.to_string());
    record.faculty = faculty.map(|s| s.to_string());
    record.name = name.map(|s| s.to_string());
    record.comment = comment.map(|s| s.to_string());
    record.links = links.iter().map(|s| s.to_string()).collect();
    record
}

fn cells(record: &ParsedMagistrature) -> Vec<String> {
    vec![
        record.university.clone().unwrap_or_default(),
        record.faculty.clone().unwrap_or_default(),
        record.name.clone().unwrap_or_default(),
        record.comment.clone().unwrap_or_default(),
        record.links_cell(),
    ]
}

fn write(records: &[ParsedMagistrature]) -> Vec<u8> {
    let mut writer = csv::Writer::from_writer(Vec::new());
    writer.write_record(column_names()).unwrap();
    for record in records {
        writer
            .serialize((
                &record.university,
                &record.faculty,
                &record.name,
                &record.comment,
                record.links_cell(),
            ))
            .unwrap();
    }
    writer.into_inner().unwrap()
}

fn read(bytes: &[u8]) -> Vec<Vec<String>> {
    let mut reader = csv::ReaderBuilder::new().has_headers(false).from_reader(bytes);
    let mut rows = Vec::new();
    for row in reader.records() {
        rows.push(row.unwrap().iter().map(|cell| cell.to_string()).collect());
    }
    rows
}

#[test]
fn table_keeps_the_five_fields_of_each_record() {
    let records = vec![
        record(
            Some("X"),
            Some("Y"),
            Some("Z"),
            Some("Great program link[1]"),
            &["http://example.com"],
        ),
        record(None, None, None, None, &[]),
        record(
            Some("СПбГУ, \"ВШМ\""),
            None,
            Some("a;b,c"),
            Some("line one\n- item[1]\n- item[2]\n\nsub\n"),
            &["http://a", "http://b?x=1,2"],
        ),
    ];
    let rows = read(&write(&records));
    assert_eq!(rows.len(), 4);
    assert_eq!(rows[0], vec!["ВУЗ", "Факультет", "Магистратура", "Комментарий", "Ссылки"]);
    for (row, record) in rows[1..].iter().zip(&records) {
        assert_eq!(row, &cells(record));
    }
    assert_eq!(rows[3][4], "http://a\nhttp://b?x=1,2");
}

#[test]
fn table_written_twice_reads_the_same() {
    let records = vec![
        record(Some("U"), Some("F"), Some("N"), Some("c \"quoted\",\nnext"), &["u1", "u2", "u3"]),
        record(Some(""), None, Some(" spaced "), None, &[""]),
    ];
    let first = read(&write(&records));
    let again: Vec<ParsedMagistrature> = first[1..]
        .iter()
        .map(|row| {
            let links: Vec<&str> =
                if row[4].is_empty() { vec![] } else { row[4].split('\n').collect() };
            record(Some(&row[0]), Some(&row[1]), Some(&row[2]), Some(&row[3]), &links)
        })
        .collect();
    let second = read(&write(&again));
    assert_eq!(first, second);
}
