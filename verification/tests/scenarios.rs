use request_metrics::config::MetricsConfig;
use request_metrics::middleware::Dispatch;
use request_metrics::middleware::Handled;
use request_metrics::middleware::Request;
use request_metrics::middleware::RequestCountMiddleware;
use request_metrics::response::Response;

fn started() -> RequestCountMiddleware {
    RequestCountMiddleware::new(MetricsConfig::default()).expect("the metrics pipeline starts")
}

fn scrape(middleware: &mut RequestCountMiddleware) -> Response {
    let route = middleware.route().to_string();
    match middleware.dispatch(&route) {
        Dispatch::Respond(response) => response,
        Dispatch::Forward => panic!("a scrape was forwarded"),
    }
}

fn text_of(response: &Response) -> String {
    String::from_utf8(response.body.clone()).expect("the exposition is UTF-8")
}

fn shown_count(text: &str, route: &str) -> Option<u64> {
    let label = format!("http_route=\"{}\"", route);
    for line in text.lines() {
        if line.starts_with("http_server_requests_count{") && line.contains(&label) {
            return line.rsplit(' ').next().and_then(|value| value.parse::<u64>().ok());
        }
    }
    None
}

#[test]
fn three_hellos_then_scrape_shows_three() {
    let mut middleware = started();
    for _ in 0..3 {
        let request = Request { path: "/hello".to_string(), rest: () };
        let handled = middleware.handle(request, |_request: Request<()>| {
            "{\"message\": \"hello world\"}".to_string()
        });
        match handled {
            Handled::Forwarded(body) => assert_eq!(body, "{\"message\": \"hello world\"}"),
            Handled::Scraped(_) => panic!("/hello was answered as a scrape"),
        }
    }
    let request = Request { path: "/metrics".to_string(), rest: () };
    let handled = middleware.handle(request, |_request: Request<()>| -> String {
        panic!("a scrape reached the handler chain")
    });
    let response = match handled {
        Handled::Scraped(response) => response,
        Handled::Forwarded(_) => panic!("/metrics was forwarded"),
    };
    assert_eq!(response.status, 200);
    let text = text_of(&response);
    assert_eq!(shown_count(&text, "/hello"), Some(3), "no line for /hello with 3 in:\n{}", text);
    assert_eq!(shown_count(&text, "/metrics"), None);
}

#[test]
fn scrape_is_ok_plain_text_and_names_the_counter() {
    let mut middleware = started();
    assert!(matches!(middleware.dispatch("/hello"), Dispatch::Forward));
    let response = scrape(&mut middleware);
    assert_eq!(response.status, 200);
    assert_eq!(response.content_type.as_deref(), Some("text/plain;charset=utf-8"));
    let text = text_of(&response);
    assert!(text.contains("http_server_requests_count"));
    assert!(text.contains("# TYPE http_server_requests_count counter"));
    assert!(text.contains("# HELP http_server_requests_count total request count"));
}

#[test]
fn scrape_before_any_request_shows_no_count() {
    let mut middleware = started();
    let response = scrape(&mut middleware);
    assert_eq!(response.status, 200);
    let text = text_of(&response);
    assert!(!text.contains("http_route"));
    assert_eq!(shown_count(&text, "/hello"), None);
}

#[test]
fn each_request_is_counted_once() {
    for n in [1u64, 10, 1000] {
        let mut middleware = started();
        for _ in 0..n {
            assert!(matches!(middleware.dispatch("/orders"), Dispatch::Forward));
        }
        let text = text_of(&scrape(&mut middleware));
        assert_eq!(shown_count(&text, "/orders"), Some(n));
    }
}

#[test]
fn record_adds_one_under_the_path() {
    let mut middleware = started();
    middleware.record("/direct");
    middleware.record("/direct");
    let text = text_of(&scrape(&mut middleware));
    assert_eq!(shown_count(&text, "/direct"), Some(2));
    assert_eq!(shown_count(&text, "/metrics"), None);
}

#[test]
fn routes_are_counted_apart() {
    let mut middleware = started();
    middleware.dispatch("/a");
    middleware.dispatch("/a");
    middleware.dispatch("/b");
    let before = text_of(&scrape(&mut middleware));
    assert_eq!(shown_count(&before, "/a"), Some(2));
    assert_eq!(shown_count(&before, "/b"), Some(1));
    middleware.dispatch("/a");
    let after = text_of(&scrape(&mut middleware));
    assert_eq!(shown_count(&after, "/a"), Some(3));
    assert_eq!(shown_count(&after, "/b"), Some(1));
}

#[test]
fn scrapes_are_not_counted() {
    let mut middleware = started();
    middleware.dispatch("/hello");
    for _ in 0..3 {
        let response = scrape(&mut middleware);
        assert_eq!(response.status, 200);
    }
    let text = text_of(&scrape(&mut middleware));
    assert_eq!(shown_count(&text, "/metrics"), None);
    assert!(!text.contains("http_route=\"/metrics\""));
    assert_eq!(shown_count(&text, "/hello"), Some(1));
}

#[test]
fn snapshot_twice_gives_the_same_text() {
    let mut middleware = started();
    middleware.dispatch("/hello");
    middleware.dispatch("/bye");
    let first = middleware.snapshot().expect("the snapshot renders");
    let second = middleware.snapshot().expect("the snapshot renders");
    assert!(!first.is_empty());
    assert_eq!(first, second);
    let third = text_of(&scrape(&mut middleware));
    assert_eq!(third.as_bytes(), first.as_slice());
}

#[test]
fn only_the_exact_route_is_a_scrape() {
    let mut middleware = started();
    for path in ["/metrics/", "/Metrics", "metrics", "/metrics?x=1", "", "/", "/metric"] {
        assert!(matches!(middleware.dispatch(path), Dispatch::Forward), "{:?} was answered", path);
    }
    let text = text_of(&scrape(&mut middleware));
    assert_eq!(shown_count(&text, "/metrics/"), Some(1));
    assert_eq!(shown_count(&text, "/Metrics"), Some(1));
    assert_eq!(shown_count(&text, ""), Some(1));
    assert_eq!(shown_count(&text, "/metrics"), None);
}

#[test]
fn configured_route_replaces_the_default() {
    let config = MetricsConfig::new("/internal/stats".to_string());
    let mut middleware = RequestCountMiddleware::new(config).expect("the metrics pipeline starts");
    assert_eq!(middleware.route(), "/internal/stats");
    assert!(matches!(middleware.dispatch("/metrics"), Dispatch::Forward));
    let response = match middleware.dispatch("/internal/stats") {
        Dispatch::Respond(response) => response,
        Dispatch::Forward => panic!("the configured scrape route was forwarded"),
    };
    let text = text_of(&response);
    assert_eq!(shown_count(&text, "/metrics"), Some(1));
    assert_eq!(shown_count(&text, "/internal/stats"), None);
}

#[test]
fn two_middlewares_count_apart() {
    let mut first = started();
    let mut second = started();
    first.dispatch("/hello");
    first.dispatch("/hello");
    second.dispatch("/hello");
    assert_eq!(shown_count(&text_of(&scrape(&mut first)), "/hello"), Some(2));
    assert_eq!(shown_count(&text_of(&scrape(&mut second)), "/hello"), Some(1));
}
