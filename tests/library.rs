use hiveforgectl::client::{command_output, decode_response, jobs_url, ClientError};
use hiveforgectl::config::{choose_config_path, home_config_file, Config, ConfigError};
use hiveforgectl::job::Job;
use hiveforgectl::json::{find_member, get_strs, Json};
use hiveforgectl::table::{column_widths, render_listing, render_table, table_fits};
use hiveforgectl::text::decimal_text;

const SCENARIO_BODY: &str = r#"[{"id":1,"name":"build","description":"d","status":"done","requested_capabilities":[],"inserted_at":"2024-01-01","updated_at":"2024-01-02"}]"#;

fn job(id: i32, name: &str, status: &str, inserted: &str, updated: &str) -> Job {
    Job {
        id,
        name: name.to_string(),
        description: String::new(),
        status: status.to_string(),
        requested_capabilities: Vec::new(),
        inserted_at: inserted.to_string(),
        updated_at: updated.to_string(),
    }
}

fn scenario_config() -> Config {
    Config::new("localhost".to_string(), 4000, String::new(), false)
}

#[test]
fn config_new_keeps_fields() {
    let c = Config::new("h".to_string(), 1, "ca.pem".to_string(), true);
    assert_eq!(c.api_endpoint, "h");
    assert_eq!(c.port, 1);
    assert_eq!(c.cacert_file, "ca.pem");
    assert!(c.debug);
}

#[test]
fn config_decodes_from_text() {
    let text = r#"{"api_endpoint":"localhost","port":4000,"cacert_file":"","debug":false,"extra":1}"#;
    let c = Config::from_text(text).ok().unwrap();
    assert_eq!(c.api_endpoint, "localhost");
    assert_eq!(c.port, 4000);
    assert_eq!(c.cacert_file, "");
    assert!(!c.debug);
}

#[test]
fn config_missing_field_is_decode_error() {
    let text = r#"{"api_endpoint":"localhost","port":4000,"debug":false}"#;
    assert!(matches!(Config::from_text(text), Err(ConfigError::Decode(_))));
}

#[test]
fn config_mistyped_field_is_decode_error() {
    let text = r#"{"api_endpoint":"localhost","port":"4000","cacert_file":"","debug":false}"#;
    assert!(matches!(Config::from_text(text), Err(ConfigError::Decode(_))));
    let text = r#"{"api_endpoint":"localhost","port":4000.5,"cacert_file":"","debug":false}"#;
    assert!(matches!(Config::from_text(text), Err(ConfigError::Decode(_))));
}

#[test]
fn config_port_out_of_range_is_decode_error() {
    let text = r#"{"api_endpoint":"localhost","port":4294967296,"cacert_file":"","debug":false}"#;
    assert!(matches!(Config::from_text(text), Err(ConfigError::Decode(_))));
}

#[test]
fn config_not_json_or_not_object_is_decode_error() {
    assert!(matches!(Config::from_text("not json"), Err(ConfigError::Decode(_))));
    assert!(matches!(Config::from_text("[1, 2]"), Err(ConfigError::Decode(_))));
}

#[test]
fn config_read_failure_is_io_error() {
    match Config::from_read(Err("permission denied".to_string())) {
        Err(ConfigError::Io(m)) => assert_eq!(m, "permission denied"),
        _ => panic!("expected an I/O error"),
    }
}

#[test]
fn local_config_wins_over_home() {
    let home = Some(("/home/u/.hiveforge/config.json".to_string(), true));
    match choose_config_path(true, home) {
        Ok(p) => assert_eq!(p, "config.json"),
        _ => panic!("expected the local file"),
    }
}

#[test]
fn home_config_used_when_local_absent() {
    let home = Some((home_config_file("/home/u"), true));
    match choose_config_path(false, home) {
        Ok(p) => assert_eq!(p, "/home/u/.hiveforge/config.json"),
        _ => panic!("expected the home file"),
    }
}

#[test]
fn no_config_file_is_not_found() {
    let home = Some((home_config_file("/home/u"), false));
    assert!(matches!(choose_config_path(false, home), Err(ConfigError::NotFound)));
}

#[test]
fn unset_home_is_config_error() {
    assert!(matches!(choose_config_path(false, None), Err(ConfigError::HomeUnset)));
    assert!(choose_config_path(true, None).is_ok());
}

#[test]
fn debug_flag_overrides_config() {
    let text = r#"{"api_endpoint":"localhost","port":4000,"cacert_file":"","debug":false}"#;
    let mut c = Config::from_text(text).ok().unwrap();
    c.set_debug(true);
    assert!(c.debug);
    assert_eq!(c.api_endpoint, "localhost");
    assert_eq!(c.port, 4000);
    c.set_debug(false);
    assert!(!c.debug);
}

#[test]
fn url_of_config() {
    assert_eq!(jobs_url(&scenario_config()), "http://localhost:4000/api/v1/jobs");
    let c = Config::new("10.0.0.2".to_string(), 80, String::new(), true);
    assert_eq!(jobs_url(&c), "http://10.0.0.2:80/api/v1/jobs");
}

#[test]
fn decimal_of_integers() {
    assert_eq!(decimal_text(0), "0");
    assert_eq!(decimal_text(7), "7");
    assert_eq!(decimal_text(4000), "4000");
    assert_eq!(decimal_text(-42), "-42");
    assert_eq!(decimal_text(i32::MAX), "2147483647");
    assert_eq!(decimal_text(i32::MIN), "-2147483648");
}

#[test]
fn parse_jobs_keeps_fields_and_order() {
    let body = r#"[{"id":2,"name":"b","description":"x","status":"s","requested_capabilities":["gpu","ram"],"inserted_at":"i","updated_at":"u"},
                   {"id":1,"name":"a","description":"y","status":"t","requested_capabilities":[],"inserted_at":"j","updated_at":"v"}]"#;
    let jobs = Job::parse_jobs(body).ok().unwrap();
    assert_eq!(jobs.len(), 2);
    assert_eq!(jobs[0].id, 2);
    assert_eq!(jobs[0].name, "b");
    assert_eq!(jobs[0].description, "x");
    assert_eq!(jobs[0].requested_capabilities, vec!["gpu".to_string(), "ram".to_string()]);
    assert_eq!(jobs[1].id, 1);
    assert_eq!(jobs[1].updated_at, "v");
}

#[test]
fn empty_array_decodes_to_no_jobs() {
    assert_eq!(Job::parse_jobs("[]").ok().unwrap().len(), 0);
}

#[test]
fn object_body_is_decode_error() {
    let body = r#"{"id":1,"name":"build","description":"d","status":"done","requested_capabilities":[],"inserted_at":"a","updated_at":"b"}"#;
    assert!(matches!(decode_response(body), Err(ClientError::Decode(_))));
}

#[test]
fn missing_status_is_decode_error() {
    let body = r#"[{"id":1,"name":"build","description":"d","requested_capabilities":[],"inserted_at":"a","updated_at":"b"}]"#;
    assert!(matches!(decode_response(body), Err(ClientError::Decode(_))));
}

#[test]
fn mistyped_capabilities_is_decode_error() {
    let body = r#"[{"id":1,"name":"n","description":"d","status":"s","requested_capabilities":[1],"inserted_at":"a","updated_at":"b"}]"#;
    assert!(Job::parse_jobs(body).is_err());
}

#[test]
fn scenario_table() {
    let jobs = decode_response(SCENARIO_BODY).ok().unwrap();
    let lines = render_listing(&jobs);
    assert_eq!(
        lines,
        vec![
            "+----+-------+--------+-------------+------------+".to_string(),
            "| ID | Name  | Status | Inserted At | Updated At |".to_string(),
            "+----+-------+--------+-------------+------------+".to_string(),
            "| 1  | build | done   | 2024-01-01  | 2024-01-02 |".to_string(),
            "+----+-------+--------+-------------+------------+".to_string(),
        ]
    );
}

#[test]
fn widths_follow_longest_cell() {
    let jobs = vec![job(123456, "a-very-long-name", "ok", "2024-01-01T00:00:00", "x")];
    assert_eq!(column_widths(&jobs), vec![6, 16, 6, 19, 10]);
    assert_eq!(column_widths(&Vec::new()), vec![2, 4, 6, 11, 10]);
    assert!(table_fits(&jobs));
}

#[test]
fn table_lines_are_aligned() {
    let jobs = vec![
        job(1, "short", "running", "2024-01-01", "2024-01-02"),
        job(-1234567, "a much longer name", "ok", "yesterday", "2024-02-03T10:11:12Z"),
        job(42, "", "", "", ""),
    ];
    let lines = render_table(&jobs);
    assert_eq!(lines.len(), jobs.len() + 4);
    let n = lines[0].chars().count();
    for line in &lines {
        assert_eq!(line.chars().count(), n);
    }
    let widths = column_widths(&jobs);
    for line in &lines[1..lines.len() - 1] {
        if line.starts_with('|') {
            let cells: Vec<&str> = line[1..line.len() - 1].split('|').collect();
            assert_eq!(cells.len(), 5);
            for (cell, w) in cells.iter().zip(&widths) {
                assert_eq!(cell.chars().count(), w + 2);
            }
        }
    }
    assert_eq!(lines[4], "| -1234567 | a much longer name | ok      | yesterday   | 2024-02-03T10:11:12Z |");
}

#[test]
fn empty_listing_is_single_line() {
    let lines = render_listing(&Vec::new());
    assert_eq!(lines, vec!["No jobs found.".to_string()]);
}

#[test]
fn output_for_empty_array() {
    let lines = command_output(&scenario_config(), Ok("[]".to_string()));
    assert_eq!(lines, vec!["No jobs found.".to_string()]);
}

#[test]
fn output_echoes_raw_body_first_when_debugging() {
    let mut config = scenario_config();
    config.set_debug(true);
    let lines = command_output(&config, Ok(SCENARIO_BODY.to_string()));
    assert_eq!(lines.len(), 7);
    assert_eq!(lines[0], "Raw API response:");
    assert_eq!(lines[1], SCENARIO_BODY);
    assert_eq!(lines[3], "| ID | Name  | Status | Inserted At | Updated At |");
}

#[test]
fn output_without_debug_has_no_echo() {
    let lines = command_output(&scenario_config(), Ok(SCENARIO_BODY.to_string()));
    assert_eq!(lines.len(), 5);
    assert!(lines[0].starts_with('+'));
}

#[test]
fn output_for_network_error() {
    let lines = command_output(&scenario_config(), Err("connection refused".to_string()));
    assert_eq!(lines, vec!["Error: connection refused".to_string()]);
}

#[test]
fn output_for_bad_body_has_no_table() {
    let mut config = scenario_config();
    config.set_debug(true);
    let lines = command_output(&config, Ok("{}".to_string()));
    assert_eq!(lines.len(), 3);
    assert_eq!(lines[1], "{}");
    assert!(lines[2].starts_with("Error: "));
    let lines = command_output(&scenario_config(), Ok("not json".to_string()));
    assert_eq!(lines.len(), 1);
    assert!(lines[0].starts_with("Error: "));
}

#[test]
fn client_error_message() {
    assert_eq!(ClientError::Network("down".to_string()).message(), "down");
    assert_eq!(ClientError::Decode("bad".to_string()).message(), "bad");
}

#[test]
fn member_lookup_takes_first_match() {
    let ms = vec![
        ("a".to_string(), Json::Int(1)),
        ("b".to_string(), Json::Arr(vec![Json::Str("x".to_string())])),
        ("a".to_string(), Json::Int(2)),
    ];
    assert!(matches!(find_member(&ms, "a"), Some(Json::Int(1))));
    assert!(find_member(&ms, "c").is_none());
    assert_eq!(get_strs(find_member(&ms, "b")), Some(vec!["x".to_string()]));
}
