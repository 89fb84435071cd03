use bencher_threshold::error::CliError;
use bencher_threshold::urls::is_short;
use bencher_threshold::urls::BenchmarkQuery;
use bencher_threshold::urls::BenchmarkUrl;
use bencher_threshold::urls::BenchmarkUrls;
use bencher_threshold::urls::UrlEntry;
use bencher_threshold::urls::Visibility;
use bencher_threshold::web::TEXT_LIMIT;

fn text(s: &str) -> String {
    s.to_string()
}

fn public() -> BenchmarkUrl {
    BenchmarkUrl::new(
        "https://bencher.dev",
        Visibility::Public,
        text("my-project"),
        1,
        2,
    )
    .unwrap()
}

fn benchmark(name: &str, metric_kind: &str, benchmark: u128) -> BenchmarkQuery {
    BenchmarkQuery {
        name: text(name),
        metric_kind: text(metric_kind),
        benchmark,
    }
}

const QUERY: &str = "&branches=00000000-0000-0000-0000-000000000001\
&testbeds=00000000-0000-0000-0000-000000000002&benchmarks=00000000-0000-0000-0000-00000000000";

fn page(path: &str, metric_kind: &str, benchmark: u8) -> String {
    format!("https://bencher.dev{path}?metric_kind={metric_kind}{QUERY}{benchmark:x}")
}

#[test]
fn public_project_has_its_page_in_the_open() {
    let url = public();
    assert_eq!(url.endpoint, "https://bencher.dev/");
    assert_eq!(url.path(), "/perf/my-project");
    assert_eq!(
        url.query("latency", 3),
        "metric_kind=latency&branches=00000000-0000-0000-0000-000000000001\
&testbeds=00000000-0000-0000-0000-000000000002\
&benchmarks=00000000-0000-0000-0000-000000000003"
    );
    assert_eq!(
        url.to_url("latency", 3),
        Some(page("/perf/my-project", "latency", 3))
    );
}

#[test]
fn private_project_has_its_page_in_the_console() {
    let url = BenchmarkUrl::new(
        "https://bencher.dev/old/path?old=query",
        Visibility::Private,
        text("my-project"),
        1,
        2,
    )
    .unwrap();
    assert_eq!(url.path(), "/console/projects/my-project/perf");
    assert_eq!(
        url.to_url("latency", 10),
        Some(page("/console/projects/my-project/perf", "latency", 10))
    );
}

#[test]
fn endpoint_has_to_be_a_url() {
    assert_eq!(
        BenchmarkUrl::new("bencher.dev", Visibility::Public, text("p"), 1, 2),
        Err(CliError::Url(url::ParseError::RelativeUrlWithoutBase))
    );
    let broken = BenchmarkUrl {
        endpoint: text("no url"),
        project_visibility: Visibility::Public,
        project_slug: text("p"),
        branch: 1,
        testbed: 2,
    };
    assert_eq!(broken.to_url("latency", 3), None);
}

#[test]
fn path_and_query_are_encoded_by_the_setters() {
    let url = BenchmarkUrl::new(
        "https://bencher.dev",
        Visibility::Public,
        text("my project"),
        1,
        2,
    )
    .unwrap();
    assert_eq!(
        url.to_url("a b", 3),
        Some(page("/perf/my%20project", "a%20b", 3))
    );
}

#[test]
fn overlong_texts_give_no_url() {
    assert!(is_short(""));
    assert!(is_short("abc"));
    let long = "a".repeat(TEXT_LIMIT + 1);
    assert!(!is_short(&long));
    assert!(is_short(&long[1..]));
    assert_eq!(public().to_url(&long, 3), None);
}

#[test]
fn later_benchmark_takes_the_place_of_an_earlier_one() {
    let benchmarks = vec![
        benchmark("b", "latency", 1),
        benchmark("a", "latency", 2),
        benchmark("b", "throughput", 3),
    ];
    let urls = BenchmarkUrls::new(&public(), &benchmarks);
    assert_eq!(
        urls,
        BenchmarkUrls(vec![
            UrlEntry {
                name: text("b"),
                url: page("/perf/my-project", "throughput", 3),
            },
            UrlEntry {
                name: text("a"),
                url: page("/perf/my-project", "latency", 2),
            },
        ])
    );
    assert_eq!(urls.get("a"), Some(&page("/perf/my-project", "latency", 2)));
    assert_eq!(
        urls.get("b"),
        Some(&page("/perf/my-project", "throughput", 3))
    );
    assert_eq!(urls.get("c"), None);
}

#[test]
fn urls_of_no_benchmarks() {
    let urls = BenchmarkUrls::new(&public(), &vec![]);
    assert!(urls.0.is_empty());
    assert_eq!(urls.get("a"), None);
    let mut urls = urls;
    urls.insert(text("a"), text("one"));
    urls.insert(text("a"), text("two"));
    urls.insert(text("b"), text("three"));
    assert_eq!(urls.0.len(), 2);
    assert_eq!(urls.get("a"), Some(&text("two")));
}
