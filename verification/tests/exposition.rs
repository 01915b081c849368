use nasne_exporter::buffer::TextBuffer;
use nasne_exporter::exposition::{
    render, write_decimal, write_escaped, write_sample_line, write_type_line,
};
use nasne_exporter::model::{DeviceIdentity, HddInfo, StorageStatus};
use nasne_exporter::observation::{observe, Metric, Observation};

fn identity(name: &str) -> DeviceIdentity {
    DeviceIdentity { error_code: 0, name: name.to_string() }
}

fn storage(total: u64, free: u64, used: u64) -> StorageStatus {
    StorageStatus {
        error_code: 0,
        hdd: HddInfo {
            total_volume_size: total,
            free_volume_size: free,
            used_volume_size: used,
            serial_number: "SN".to_string(),
            id: 0,
            internal_flag: 0,
            mount_status: 1,
            register_flag: 1,
            format: "xfs".to_string(),
            name: "hdd0".to_string(),
            vendor_id: "vendor".to_string(),
            product_id: "product".to_string(),
        },
    }
}

fn decimal(n: u64) -> String {
    write_decimal(TextBuffer::new(), n).finish()
}

fn escaped(value: &str) -> String {
    write_escaped(TextBuffer::new(), value).finish()
}

/// Reads a label value from behind its opening quote, as a parser of the format does.
fn unquote(text: &str) -> Option<(String, String)> {
    let mut value = String::new();
    let mut chars = text.chars();
    loop {
        match chars.next()? {
            '"' => return Some((value, chars.collect())),
            '\n' => return None,
            '\\' => match chars.next()? {
                '\\' => value.push('\\'),
                '"' => value.push('"'),
                'n' => value.push('\n'),
                _ => return None,
            },
            c => value.push(c),
        }
    }
}

#[test]
fn text_buffer_starts_empty() {
    assert_eq!(TextBuffer::new().finish(), "");
}

#[test]
fn text_buffer_appends_in_order() {
    let text = TextBuffer::new().push_str("ab").push_str("").push_str("c\u{e9}\u{1f600}").finish();
    assert_eq!(text, "abc\u{e9}\u{1f600}");
}

#[test]
fn decimal_of_small_and_large_numbers() {
    assert_eq!(decimal(0), "0");
    assert_eq!(decimal(7), "7");
    assert_eq!(decimal(10), "10");
    assert_eq!(decimal(1234567890), "1234567890");
    assert_eq!(decimal(1000000000000), "1000000000000");
    assert_eq!(decimal(u64::MAX), "18446744073709551615");
}

#[test]
fn decimal_is_written_behind_what_is_there() {
    assert_eq!(write_decimal(TextBuffer::new().push_str("x="), 42).finish(), "x=42");
}

#[test]
fn escaping_leaves_ordinary_names_alone() {
    assert_eq!(escaped(""), "");
    assert_eq!(escaped("Living Room"), "Living Room");
    assert_eq!(escaped("caf\u{e9} \u{1f600} {}=,'\t"), "caf\u{e9} \u{1f600} {}=,'\t");
}

#[test]
fn escaping_of_quote_backslash_and_line_feed() {
    assert_eq!(escaped("\""), "\\\"");
    assert_eq!(escaped("\\"), "\\\\");
    assert_eq!(escaped("\n"), "\\n");
    assert_eq!(escaped("a\"b\\c\nd"), "a\\\"b\\\\c\\nd");
    assert_eq!(escaped("\\n"), "\\\\n");
    assert_eq!(escaped("\"\""), "\\\"\\\"");
}

#[test]
fn escaped_names_read_back() {
    let names = [
        "",
        "Study",
        "say \"hi\"",
        "\"",
        "\\",
        "\\\"",
        "line\nbreak",
        "\\n",
        "tab\there",
        "\u{e9}\"\u{1f600}\\",
        "trailing\\",
    ];
    for name in names {
        let text = format!("{}\"}} 5\n", escaped(name));
        assert_eq!(unquote(&text), Some((name.to_string(), "} 5\n".to_string())), "{:?}", name);
    }
}

#[test]
fn name_with_a_double_quote_reads_back_from_the_rendered_text() {
    let name = "the \"big\" one";
    let text = render(&observe(&identity(name), &storage(3, 1, 2)));
    let line = text.lines().nth(1).unwrap();
    assert_eq!(line, "nasne_total_volume_size{name=\"the \\\"big\\\" one\"} 3");
    let behind_quote = line.strip_prefix("nasne_total_volume_size{name=\"").unwrap();
    assert_eq!(unquote(behind_quote), Some((name.to_string(), "} 3".to_string())));
}

#[test]
fn metric_names() {
    assert_eq!(Metric::TotalVolumeSize.name(), "nasne_total_volume_size");
    assert_eq!(Metric::FreeVolumeSize.name(), "nasne_free_volume_size");
    assert_eq!(Metric::UsedVolumeSize.name(), "nasne_used_volume_size");
}

#[test]
fn type_line_of_each_metric() {
    assert_eq!(
        write_type_line(TextBuffer::new(), Metric::TotalVolumeSize).finish(),
        "# TYPE nasne_total_volume_size gauge\n"
    );
    assert_eq!(
        write_type_line(TextBuffer::new(), Metric::FreeVolumeSize).finish(),
        "# TYPE nasne_free_volume_size gauge\n"
    );
    assert_eq!(
        write_type_line(TextBuffer::new(), Metric::UsedVolumeSize).finish(),
        "# TYPE nasne_used_volume_size gauge\n"
    );
}

#[test]
fn sample_line_of_an_observation() {
    let observation =
        Observation { metric: Metric::FreeVolumeSize, name: "a\\b".to_string(), value: 12 };
    assert_eq!(
        write_sample_line(TextBuffer::new(), &observation).finish(),
        "nasne_free_volume_size{name=\"a\\\\b\"} 12\n"
    );
}

#[test]
fn observations_are_total_free_used() {
    let observations = observe(&identity("Study"), &storage(5000000000, 2000000000, 3000000000));
    assert_eq!(
        observations,
        vec![
            Observation {
                metric: Metric::TotalVolumeSize,
                name: "Study".to_string(),
                value: 5000000000
            },
            Observation {
                metric: Metric::FreeVolumeSize,
                name: "Study".to_string(),
                value: 2000000000
            },
            Observation {
                metric: Metric::UsedVolumeSize,
                name: "Study".to_string(),
                value: 3000000000
            },
        ]
    );
}

#[test]
fn observations_take_the_name_from_the_identity() {
    let observations = observe(&identity("box"), &storage(1, 2, 3));
    assert!(observations.iter().all(|o| o.name == "box"));
    assert_eq!(observations[0].clone(), observations[0]);
}

#[test]
fn rendering_of_one_device() {
    let text = render(&observe(
        &identity("Living Room"),
        &storage(1000000000000, 400000000000, 600000000000),
    ));
    assert_eq!(
        text,
        "# TYPE nasne_total_volume_size gauge\n\
         nasne_total_volume_size{name=\"Living Room\"} 1000000000000\n\
         \n\
         # TYPE nasne_free_volume_size gauge\n\
         nasne_free_volume_size{name=\"Living Room\"} 400000000000\n\
         \n\
         # TYPE nasne_used_volume_size gauge\n\
         nasne_used_volume_size{name=\"Living Room\"} 600000000000\n\
         \n"
    );
}

#[test]
fn rendering_of_nothing_is_empty() {
    assert_eq!(render(&Vec::new()), "");
}

#[test]
fn rendering_groups_by_metric() {
    let mut observations = observe(&identity("a"), &storage(1, 2, 3));
    observations.extend(observe(&identity("b"), &storage(4, 5, 6)));
    assert_eq!(
        render(&observations),
        "# TYPE nasne_total_volume_size gauge\n\
         nasne_total_volume_size{name=\"a\"} 1\n\
         nasne_total_volume_size{name=\"b\"} 4\n\
         \n\
         # TYPE nasne_free_volume_size gauge\n\
         nasne_free_volume_size{name=\"a\"} 2\n\
         nasne_free_volume_size{name=\"b\"} 5\n\
         \n\
         # TYPE nasne_used_volume_size gauge\n\
         nasne_used_volume_size{name=\"a\"} 3\n\
         nasne_used_volume_size{name=\"b\"} 6\n\
         \n"
    );
}

#[test]
fn rendering_leaves_out_metrics_without_samples() {
    let observations =
        vec![Observation { metric: Metric::UsedVolumeSize, name: "x".to_string(), value: 9 }];
    assert_eq!(
        render(&observations),
        "# TYPE nasne_used_volume_size gauge\nnasne_used_volume_size{name=\"x\"} 9\n\n"
    );
}
