use bencher_threshold::backend::map_token;
use bencher_threshold::backend::unwrap_host;
use bencher_threshold::backend::Attempts;
use bencher_threshold::backend::Backend;
use bencher_threshold::backend::Method;
use bencher_threshold::backend::Request;
use bencher_threshold::backend::SendStep;
use bencher_threshold::backend::BENCHER_API_TOKEN;
use bencher_threshold::backend::BENCHER_HOST;
use bencher_threshold::backend::DEFAULT_ATTEMPTS;
use bencher_threshold::backend::DEFAULT_HOST;
use bencher_threshold::backend::DEFAULT_RETRY_AFTER;
use bencher_threshold::cli::CliBackend;
use bencher_threshold::error::CliError;

fn text(s: &str) -> Option<String> {
    Some(s.to_string())
}

fn cli(host: Option<String>, token: Option<String>) -> CliBackend {
    CliBackend {
        host,
        token,
        attempts: None,
        retry_after: None,
    }
}

#[test]
fn host_comes_from_argument_then_environment_then_default() {
    assert_eq!(
        unwrap_host(text("http://localhost:61016"), text("https://env.example")),
        Ok("http://localhost:61016/".to_string())
    );
    assert_eq!(
        unwrap_host(None, text("https://env.example")),
        Ok("https://env.example/".to_string())
    );
    assert_eq!(
        unwrap_host(None, None),
        Ok("https://api.bencher.dev/".to_string())
    );
    assert_eq!(DEFAULT_HOST, "https://api.bencher.dev");
    assert_eq!(BENCHER_HOST, "BENCHER_HOST");
    assert_eq!(BENCHER_API_TOKEN, "BENCHER_API_TOKEN");
}

#[test]
fn host_is_normalized_by_the_parser() {
    assert_eq!(
        unwrap_host(text("HTTPS://API.Bencher.Dev:443/a/../b"), None),
        Ok("https://api.bencher.dev/b".to_string())
    );
}

#[test]
fn host_that_is_no_url_is_an_error() {
    assert_eq!(
        unwrap_host(text("localhost"), None),
        Err(CliError::Url(url::ParseError::RelativeUrlWithoutBase))
    );
    assert_eq!(
        unwrap_host(None, text("http://")),
        Err(CliError::Url(url::ParseError::EmptyHost))
    );
    assert_eq!(
        Backend::try_from(cli(text("not a url"), None), None, None),
        Err(CliError::Url(url::ParseError::RelativeUrlWithoutBase))
    );
}

#[test]
fn token_comes_from_argument_then_environment() {
    assert_eq!(map_token(text("a"), text("b")), text("a"));
    assert_eq!(map_token(None, text("b")), text("b"));
    assert_eq!(map_token(None, None), None);
}

#[test]
fn backend_from_arguments() {
    let backend = Backend::try_from(
        CliBackend {
            host: text("http://localhost:61016"),
            token: None,
            attempts: Some(5),
            retry_after: Some(2),
        },
        text("https://env.example"),
        text("secret"),
    )
    .unwrap();
    assert_eq!(
        backend,
        Backend {
            host: "http://localhost:61016/".to_string(),
            token: text("secret"),
            attempts: Some(5),
            retry_after: Some(2),
        }
    );
}

#[test]
fn requests_join_the_path_and_show_the_token() {
    let backend = Backend::try_from(cli(text("https://api.bencher.dev"), text("abc")), None, None)
        .unwrap();
    assert_eq!(
        backend.get("/v0/server/config/endpoint"),
        Ok(Request {
            method: Method::Get,
            url: "https://api.bencher.dev/v0/server/config/endpoint".to_string(),
            authorization: text("Bearer abc"),
        })
    );
    let post = backend.post("/v0/projects/p/metric-kinds").unwrap();
    assert_eq!(post.method, Method::Post);
    assert_eq!(post.url, "https://api.bencher.dev/v0/projects/p/metric-kinds");
    assert_eq!(backend.put("/a").unwrap().method, Method::Put);
    assert_eq!(backend.patch("/a").unwrap().method, Method::Patch);
    assert_eq!(backend.delete("/a").unwrap().method, Method::Delete);
    assert_eq!(
        backend.request(Method::Get, "b?x=1").unwrap().url,
        "https://api.bencher.dev/b?x=1"
    );

    let anonymous = Backend::try_from(cli(None, None), None, None).unwrap();
    assert_eq!(anonymous.get("/v0").unwrap().authorization, None);
}

#[test]
fn request_to_a_path_that_joins_to_no_url_is_an_error() {
    let backend = Backend::try_from(cli(None, None), None, None).unwrap();
    assert_eq!(
        backend.get("https://:80"),
        Err(CliError::Url(url::ParseError::EmptyHost))
    );
    let broken = Backend {
        host: "no url".to_string(),
        token: None,
        attempts: None,
        retry_after: None,
    };
    assert_eq!(
        broken.get("/a"),
        Err(CliError::Url(url::ParseError::RelativeUrlWithoutBase))
    );
}

#[test]
fn tries_use_the_defaults() {
    let backend = Backend::try_from(cli(None, None), None, None).unwrap();
    let tries = backend.send();
    assert_eq!(
        tries,
        Attempts {
            attempts: 3,
            retry_after: 1,
            failed: 0
        }
    );
    assert_eq!(DEFAULT_ATTEMPTS, 3);
    assert_eq!(DEFAULT_RETRY_AFTER, 1);
}

#[test]
fn three_tries_with_waits_between() {
    let mut tries = Attempts {
        attempts: 3,
        retry_after: 7,
        failed: 0,
    };
    assert_eq!(tries.next(), SendStep::Send);
    tries = tries.fail();
    assert_eq!(tries.next(), SendStep::Wait(7));
    tries = tries.fail();
    assert_eq!(tries.next(), SendStep::Wait(7));
    tries = tries.fail();
    assert_eq!(tries.next(), SendStep::GiveUp(3));
    assert_eq!(tries.error(), CliError::Send(3));
    // Nothing more happens after the last try.
    assert_eq!(tries.fail(), tries);
}

#[test]
fn no_tries_give_up_at_once() {
    let backend = Backend {
        host: "https://api.bencher.dev/".to_string(),
        token: None,
        attempts: Some(0),
        retry_after: None,
    };
    let tries = backend.send();
    assert_eq!(tries.next(), SendStep::GiveUp(0));
    assert_eq!(tries.error(), CliError::Send(0));
    let once = Attempts {
        attempts: 1,
        retry_after: 9,
        failed: 0,
    };
    assert_eq!(once.next(), SendStep::Send);
    assert_eq!(once.fail().next(), SendStep::GiveUp(1));
}
