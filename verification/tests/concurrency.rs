use request_metrics::config::MetricsConfig;
use request_metrics::middleware::Dispatch;
use request_metrics::middleware::RequestCountMiddleware;
use std::sync::Arc;
use std::sync::Mutex;

fn shown_count(text: &str, route: &str) -> Option<u64> {
    let label = format!("http_route=\"{}\"", route);
    for line in text.lines() {
        if line.starts_with("http_server_requests_count{") && line.contains(&label) {
            return line.rsplit(' ').next().and_then(|value| value.parse::<u64>().ok());
        }
    }
    None
}

fn snapshot_text(middleware: &Arc<Mutex<RequestCountMiddleware>>) -> String {
    let rendered = middleware.lock().expect("the lock is sound").snapshot();
    String::from_utf8(rendered.expect("the snapshot renders")).expect("the exposition is UTF-8")
}

fn count_concurrently(n: u64) -> Option<u64> {
    let runtime = tokio::runtime::Builder::new_multi_thread()
        .worker_threads(4)
        .build()
        .expect("the runtime starts");
    let middleware = Arc::new(Mutex::new(
        RequestCountMiddleware::new(MetricsConfig::default()).expect("the metrics pipeline starts"),
    ));
    let mut tasks = Vec::new();
    for _ in 0..n {
        let shared = Arc::clone(&middleware);
        tasks.push(runtime.spawn(async move {
            let dispatch = shared.lock().expect("the lock is sound").dispatch("/busy");
            matches!(dispatch, Dispatch::Forward)
        }));
    }
    for task in tasks {
        assert!(runtime.block_on(task).expect("the task ends"));
    }
    shown_count(&snapshot_text(&middleware), "/busy")
}

#[test]
fn one_concurrent_request_counts_one() {
    assert_eq!(count_concurrently(1), Some(1));
}

#[test]
fn ten_concurrent_requests_count_ten() {
    assert_eq!(count_concurrently(10), Some(10));
}

#[test]
fn thousand_concurrent_requests_count_thousand() {
    assert_eq!(count_concurrently(1000), Some(1000));
}

#[test]
fn concurrent_scrapes_do_not_disturb_the_count() {
    let runtime = tokio::runtime::Builder::new_multi_thread()
        .worker_threads(4)
        .build()
        .expect("the runtime starts");
    let middleware = Arc::new(Mutex::new(
        RequestCountMiddleware::new(MetricsConfig::default()).expect("the metrics pipeline starts"),
    ));
    let mut tasks = Vec::new();
    for turn in 0..200u32 {
        let shared = Arc::clone(&middleware);
        tasks.push(runtime.spawn(async move {
            let path = if turn % 2 == 0 { "/busy" } else { "/metrics" };
            let dispatch = shared.lock().expect("the lock is sound").dispatch(path);
            matches!(dispatch, Dispatch::Forward) == (turn % 2 == 0)
        }));
    }
    for task in tasks {
        assert!(runtime.block_on(task).expect("the task ends"));
    }
    let text = snapshot_text(&middleware);
    assert_eq!(shown_count(&text, "/busy"), Some(100));
    assert_eq!(shown_count(&text, "/metrics"), None);
}
