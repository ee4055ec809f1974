use fleet_monitor::change::{check_fleet, has_changed, Verdict};
use fleet_monitor::fleet::{
    build_fleet, FleetError, HealthStatus, InstanceDescription, LifecycleState, ServerStatus,
    StatusRecord, Tag,
};
use fleet_monitor::notify::{decide, html_alternative, raw_message_data, Notification};
use fleet_monitor::queue::QueueHealth;
use fleet_monitor::render::{render_fleet, render_line};
use fleet_monitor::text::{decimal_text, push_padded};

fn tag(key: &str, value: &str) -> Tag {
    Tag { key: key.to_string(), value: value.to_string() }
}

fn described(id: &str, name: Option<&str>) -> InstanceDescription {
    let mut tags = vec![tag("Owner", "ops")];
    if let Some(n) = name {
        tags.push(tag("Name", n));
    }
    InstanceDescription { id: id.to_string(), tags }
}

fn status(id: &str, state: LifecycleState, inst: HealthStatus, sys: HealthStatus) -> StatusRecord {
    StatusRecord {
        id: id.to_string(),
        state: Some(state),
        instance_status: Some(inst),
        system_status: Some(sys),
    }
}

fn healthy(id: &str) -> StatusRecord {
    status(id, LifecycleState::Running, HealthStatus::Healthy, HealthStatus::Healthy)
}

fn server(id: &str, name: &str) -> ServerStatus {
    ServerStatus {
        id: id.to_string(),
        tags: vec![tag("Name", name)],
        state: LifecycleState::Running,
        summary: HealthStatus::Healthy,
        system_summary: HealthStatus::Healthy,
    }
}

fn expected_line(id: &str, name: &str, state: &str, inst: &str, sys: &str) -> String {
    format!("{} {:20} {:20} {:20} {}", id, name, state, inst, sys)
}

#[test]
fn name_takes_first_name_tag() {
    let s = ServerStatus {
        id: "i-1".to_string(),
        tags: vec![tag("Env", "prod"), tag("Name", "web"), tag("Name", "other")],
        state: LifecycleState::Running,
        summary: HealthStatus::Healthy,
        system_summary: HealthStatus::Healthy,
    };
    assert_eq!(s.name(), "web");
}

#[test]
fn name_defaults_to_unnamed() {
    let mut s = server("i-1", "x");
    s.tags = vec![tag("name", "lowercase key"), tag("Env", "prod")];
    assert_eq!(s.name(), "UNNAMED");
    s.tags = vec![];
    assert_eq!(s.name(), "UNNAMED");
}

#[test]
fn build_keeps_listing_order() {
    let descs = vec![described("i-b", Some("bee")), described("i-a", Some("ay"))];
    let statuses = vec![healthy("i-a"), healthy("i-b")];
    let fleet = build_fleet(descs, &statuses).unwrap();
    assert_eq!(fleet.len(), 2);
    assert_eq!(fleet[0].id, "i-b");
    assert_eq!(fleet[0].name(), "bee");
    assert_eq!(fleet[1].id, "i-a");
    assert_eq!(fleet[1].name(), "ay");
}

#[test]
fn build_drops_unmatched_ids() {
    let descs = vec![described("i-1", None), described("i-2", None)];
    let statuses = vec![healthy("i-2"), healthy("i-3")];
    let fleet = build_fleet(descs, &statuses).unwrap();
    assert_eq!(fleet.len(), 1);
    assert_eq!(fleet[0].id, "i-2");
    assert_eq!(fleet[0].name(), "UNNAMED");
}

#[test]
fn build_of_empty_inputs_is_empty() {
    let fleet = build_fleet(vec![], &vec![healthy("i-1")]).unwrap();
    assert!(fleet.is_empty());
    let fleet = build_fleet(vec![described("i-1", None)], &vec![]).unwrap();
    assert!(fleet.is_empty());
}

#[test]
fn build_uses_first_duplicate_status() {
    let descs = vec![described("i-1", Some("web"))];
    let statuses = vec![
        status("i-1", LifecycleState::Stopped, HealthStatus::Impaired, HealthStatus::Initializing),
        healthy("i-1"),
    ];
    let fleet = build_fleet(descs, &statuses).unwrap();
    assert_eq!(fleet.len(), 1);
    assert_eq!(fleet[0].state, LifecycleState::Stopped);
    assert_eq!(fleet[0].summary, HealthStatus::Impaired);
    assert_eq!(fleet[0].system_summary, HealthStatus::Initializing);
}

#[test]
fn build_fails_on_missing_status_field() {
    let descs = vec![described("i-1", None), described("i-2", None)];
    let mut broken = healthy("i-2");
    broken.system_status = None;
    let statuses = vec![healthy("i-1"), broken];
    assert_eq!(build_fleet(descs, &statuses).unwrap_err(), FleetError::MissingStatusField);
}

#[test]
fn missing_field_on_unmatched_record_is_ignored() {
    let descs = vec![described("i-1", None)];
    let mut broken = healthy("i-9");
    broken.state = None;
    let statuses = vec![healthy("i-1"), broken];
    assert_eq!(build_fleet(descs, &statuses).unwrap().len(), 1);
}

#[test]
fn line_has_fixed_width_columns() {
    let s = ServerStatus {
        id: "i-0abc".to_string(),
        tags: vec![tag("Name", "api")],
        state: LifecycleState::ShuttingDown,
        summary: HealthStatus::InsufficientData,
        system_summary: HealthStatus::NotApplicable,
    };
    let line = render_line(&s);
    assert_eq!(
        line,
        expected_line("i-0abc", "api", "ShuttingDown", "InsufficientData", "NotApplicable")
    );
    assert_eq!(line.len(), "i-0abc".len() + 1 + 21 * 3 + "NotApplicable".len());
}

#[test]
fn long_name_is_not_cut() {
    let s = server("i-1", "a-name-longer-than-twenty");
    assert_eq!(
        render_line(&s),
        "i-1 a-name-longer-than-twenty Running              Ok                   Ok"
    );
}

#[test]
fn fleet_text_joins_lines() {
    let fleet = vec![server("i-1", "one"), server("i-2", "two")];
    let text = render_fleet(&fleet);
    let expected = format!(
        "{}\n{}",
        expected_line("i-1", "one", "Running", "Ok", "Ok"),
        expected_line("i-2", "two", "Running", "Ok", "Ok")
    );
    assert_eq!(text, expected);
    assert_eq!(render_fleet(&vec![]), "");
}

#[test]
fn rendering_twice_is_identical() {
    let fleet = vec![server("i-1", "one"), server("i-2", "two")];
    assert_eq!(render_fleet(&fleet), render_fleet(&fleet));
}

#[test]
fn no_previous_rendering_is_a_change() {
    assert!(has_changed(&None, &"anything".to_string()));
    assert!(has_changed(&None, &String::new()));
}

#[test]
fn same_rendering_is_no_change() {
    let x = "i-1 web Running".to_string();
    assert!(!has_changed(&Some(x.clone()), &x));
    assert!(!has_changed(&Some(String::new()), &String::new()));
}

#[test]
fn different_rendering_is_a_change() {
    assert!(has_changed(&Some("a\nb".to_string()), &"b\na".to_string()));
    assert!(has_changed(&Some("abc".to_string()), &"abc ".to_string()));
}

#[test]
fn queue_thresholds() {
    assert!(QueueHealth { pending: 500, errors: 0 }.warnings().is_empty());
    assert_eq!(
        QueueHealth { pending: 501, errors: 0 }.warnings(),
        vec!["WARNING: Queue length is 501".to_string()]
    );
    assert!(QueueHealth { pending: 0, errors: 500 }.warnings().is_empty());
    assert_eq!(
        QueueHealth { pending: 0, errors: 501 }.warnings(),
        vec!["WARNING: Error queue length is 501".to_string()]
    );
    assert_eq!(
        QueueHealth { pending: 600, errors: 600 }.warnings(),
        vec![
            "WARNING: Queue length is 600".to_string(),
            "WARNING: Error queue length is 600".to_string()
        ]
    );
}

#[test]
fn decimal_text_values() {
    assert_eq!(decimal_text(0), "0");
    assert_eq!(decimal_text(7), "7");
    assert_eq!(decimal_text(10), "10");
    assert_eq!(decimal_text(1207), "1207");
    assert_eq!(decimal_text(u64::MAX), "18446744073709551615");
}

#[test]
fn padding_to_width() {
    let mut s = "x".to_string();
    push_padded(&mut s, "ab", 5);
    assert_eq!(s, "xab   ");
    push_padded(&mut s, "long", 2);
    assert_eq!(s, "xab   long");
}

#[test]
fn scenario_unconditional_email() {
    let descs = vec![described("i-1", Some("one")), described("i-2", Some("two"))];
    let statuses = vec![healthy("i-1"), healthy("i-2")];
    let fleet = build_fleet(descs, &statuses).unwrap();
    let step = check_fleet(&fleet, &None, true, false);
    assert_eq!(step.verdict, Verdict::Disabled);
    assert!(step.save.is_none());
    let d = decide(step.message, QueueHealth { pending: 0, errors: 0 }.warnings());
    assert!(d.should_send);
    let body = d.body.unwrap();
    assert!(body.contains(&expected_line("i-1", "one", "Running", "Ok", "Ok")));
    assert!(body.contains(&expected_line("i-2", "two", "Running", "Ok", "Ok")));
}

#[test]
fn scenario_first_tracked_run() {
    let fleet = vec![server("i-1", "one")];
    let text = render_fleet(&fleet);
    let step = check_fleet(&fleet, &None, true, true);
    assert_eq!(step.verdict, Verdict::Changed);
    assert_eq!(step.save, Some(text.clone()));
    let d = decide(step.message, vec![]);
    assert!(d.should_send);
    assert_eq!(d.body, Some(text));
}

#[test]
fn scenario_tracked_run_unchanged() {
    let fleet = vec![server("i-1", "one")];
    let previous = Some(render_fleet(&fleet));
    let step = check_fleet(&fleet, &previous, true, true);
    assert_eq!(step.verdict, Verdict::Unchanged);
    assert!(step.save.is_none());
    let d = decide(step.message, vec![]);
    assert!(!d.should_send);
    assert!(d.body.is_none());
}

#[test]
fn scenario_queue_warning_alone() {
    let fleet = vec![server("i-1", "one")];
    let previous = Some(render_fleet(&fleet));
    let step = check_fleet(&fleet, &previous, false, true);
    assert!(step.message.is_none());
    let d = decide(step.message, QueueHealth { pending: 600, errors: 0 }.warnings());
    assert!(d.should_send);
    assert_eq!(d.body, Some("WARNING: Queue length is 600".to_string()));
}

#[test]
fn tracked_change_without_email_saves_only() {
    let fleet = vec![server("i-1", "one")];
    let step = check_fleet(&fleet, &Some("old".to_string()), false, true);
    assert_eq!(step.verdict, Verdict::Changed);
    assert_eq!(step.save, Some(render_fleet(&fleet)));
    assert!(step.message.is_none());
}

#[test]
fn fleet_and_queue_share_one_body() {
    let d = decide(
        Some("fleet".to_string()),
        QueueHealth { pending: 700, errors: 900 }.warnings(),
    );
    assert!(d.should_send);
    assert_eq!(
        d.body,
        Some(
            "fleet\nWARNING: Queue length is 700\nWARNING: Error queue length is 900".to_string()
        )
    );
}

#[test]
fn empty_notification_is_not_sent() {
    let d = Notification::new().decision();
    assert!(!d.should_send);
    assert!(d.body.is_none());
    let mut n = Notification::new();
    n.push("a".to_string());
    n.extend(vec!["b".to_string(), "c".to_string()]);
    assert_eq!(n.messages, vec!["a", "b", "c"]);
    assert_eq!(n.decision().body, Some("a\nb\nc".to_string()));
}

#[test]
fn html_body_is_preformatted() {
    assert_eq!(html_alternative(&"a\nb".to_string()), "<pre>a\nb</pre>");
}

#[test]
fn raw_message_is_base64() {
    assert_eq!(raw_message_data(&b"hello".to_vec()), "aGVsbG8=");
    assert_eq!(raw_message_data(&b"hi!".to_vec()), "aGkh");
    assert_eq!(raw_message_data(&vec![]), "");
}
