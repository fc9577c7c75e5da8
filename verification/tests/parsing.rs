use compose_stack::discovery::parse_services;
use compose_stack::plan::log_file_path;
use compose_stack::plan::plan_followers;

#[test]
fn parses_two_services() {
    let services = parse_services("web\ndb\n");
    assert_eq!(services, vec!["web".to_string(), "db".to_string()]);
}

#[test]
fn parses_without_trailing_newline() {
    let services = parse_services("web\ndb");
    assert_eq!(services, vec!["web".to_string(), "db".to_string()]);
}

#[test]
fn excludes_blank_lines() {
    let services = parse_services("web\n\n\ndb\n\n");
    assert_eq!(services, vec!["web".to_string(), "db".to_string()]);
}

#[test]
fn empty_listing_has_no_services() {
    let services = parse_services("");
    assert!(services.is_empty());
}

#[test]
fn newline_only_listing_has_no_services() {
    let services = parse_services("\n\n\n");
    assert!(services.is_empty());
}

#[test]
fn single_service_listing() {
    let services = parse_services("db");
    assert_eq!(services, vec!["db".to_string()]);
}

#[test]
fn crlf_endings_read_as_lf_endings() {
    let services = parse_services("web\r\ndb\r\n");
    assert_eq!(services, vec!["web".to_string(), "db".to_string()]);
}

#[test]
fn carriage_return_only_lines_are_blank() {
    let services = parse_services("\r\nweb\r\n\r\n");
    assert_eq!(services, vec!["web".to_string()]);
}

#[test]
fn carriage_return_inside_a_name_is_kept() {
    let services = parse_services("a\rb\n");
    assert_eq!(services, vec!["a\rb".to_string()]);
}

#[test]
fn log_path_joins_directory_service_and_suffix() {
    assert_eq!(log_file_path("./logs", "web"), "./logs/web.log");
    assert_eq!(log_file_path("/var/log/stack", "db"), "/var/log/stack/db.log");
}

#[test]
fn plan_has_one_follower_per_service_with_distinct_paths() {
    let services = vec!["web".to_string(), "db".to_string(), "cache".to_string()];
    let plan = plan_followers("./logs", &services);
    assert_eq!(plan.len(), 3);
    for (i, entry) in plan.iter().enumerate() {
        assert_eq!(entry.service, services[i]);
    }
    assert_eq!(plan[0].path, "./logs/web.log");
    assert_eq!(plan[1].path, "./logs/db.log");
    assert_eq!(plan[2].path, "./logs/cache.log");
    for i in 0..plan.len() {
        for j in 0..plan.len() {
            if i != j {
                assert_ne!(plan[i].path, plan[j].path);
            }
        }
    }
}

#[test]
fn plan_for_empty_listing_is_empty() {
    let services = parse_services("\n");
    let plan = plan_followers("./logs", &services);
    assert!(plan.is_empty());
}
