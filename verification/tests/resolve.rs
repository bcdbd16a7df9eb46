use gemini_gateway::resolve::{FetchResult, ResolutionOutcome, Resolver, Response, StatusCode};
use gemini_gateway::url::{gemini_url_for, AddressError, ResourceUrl};

fn run<F: FnMut(&ResourceUrl) -> FetchResult>(
    request_path: &str,
    max_redirects: usize,
    mut fetch: F,
) -> (ResolutionOutcome, usize) {
    let mut resolver = Resolver::begin(request_path, max_redirects);
    let mut calls = 0;
    loop {
        let reply = match resolver.pending() {
            Some(url) => {
                calls += 1;
                fetch(url)
            }
            None => break,
        };
        resolver = resolver.on_fetch(reply);
    }
    assert_eq!(resolver.fetches(), calls);
    assert!(resolver.fetches() <= resolver.budget());
    (resolver.into_outcome().unwrap(), calls)
}

fn address(host: &str, path: Option<&str>) -> ResourceUrl {
    ResourceUrl {
        scheme: Some("gemini".to_string()),
        host: host.to_string(),
        port: None,
        path: path.map(|p| p.to_string()),
        query: None,
    }
}

fn parse(text: &str) -> Result<ResourceUrl, String> {
    let resolver = Resolver::begin("/start.example/", 2).on_fetch(redirect(text));
    if let Some(url) = resolver.pending() {
        return Ok(url.clone());
    }
    match resolver.into_outcome() {
        Some(ResolutionOutcome::Failed(reason)) => Err(reason),
        other => panic!("unexpected outcome {:?}", other),
    }
}

fn decode(bytes: &[u8]) -> String {
    let resolver = Resolver::begin("/start.example/", 1);
    let resolver = resolver.on_fetch(FetchResult::Content { body: bytes.to_vec() });
    match resolver.into_outcome() {
        Some(ResolutionOutcome::Content(text)) => text,
        other => panic!("unexpected outcome {:?}", other),
    }
}

fn content(text: &str) -> FetchResult {
    FetchResult::Content { body: text.as_bytes().to_vec() }
}

fn redirect(target: &str) -> FetchResult {
    FetchResult::RedirectTo { target: target.to_string() }
}

fn chain(url: &ResourceUrl) -> FetchResult {
    match url.host.as_str() {
        "a.example" => redirect("gemini://b.example/"),
        "b.example" => redirect("gemini://c.example/"),
        "c.example" => content("# from c"),
        other => panic!("unexpected host {other}"),
    }
}

#[test]
fn never_more_fetches_than_the_budget() {
    for budget in 0..8 {
        let (outcome, calls) = run("/a.example/", budget, |_| redirect("gemini://a.example/"));
        assert_eq!(calls, budget);
        assert_eq!(outcome, ResolutionOutcome::Exhausted);
    }
}

#[test]
fn first_fetch_with_content_ends_the_resolution() {
    let (outcome, calls) = run("/a.example/doc", 5, |_| content("# héllo"));
    assert_eq!(calls, 1);
    assert_eq!(outcome, ResolutionOutcome::Content("# héllo".to_string()));
    assert_eq!(outcome.content(), Some(&"# héllo".to_string()));
    assert_eq!(outcome.error(), None);
}

#[test]
fn content_is_decoded_without_rejecting_it() {
    let (outcome, _) = run("/a.example/doc", 5, |_| FetchResult::Content {
        body: vec![b'o', b'k', 0xff],
    });
    assert_eq!(outcome, ResolutionOutcome::Content("ok\u{fffd}".to_string()));
}

#[test]
fn transport_error_ends_the_resolution() {
    let (outcome, calls) = run("/a.example/doc", 5, |_| {
        FetchResult::transport_error("DNS Error".to_string())
    });
    assert_eq!(calls, 1);
    assert_eq!(outcome.error(), Some(&"DNS Error".to_string()));
    assert_eq!(outcome.content(), None);
}

#[test]
fn transport_error_after_redirects_ends_the_resolution() {
    let mut seen = 0;
    let (outcome, calls) = run("/a.example/doc", 5, |_| {
        seen += 1;
        if seen < 3 {
            redirect("gemini://a.example/next")
        } else {
            FetchResult::transport_error("IO error: timed out".to_string())
        }
    });
    assert_eq!(calls, 3);
    assert_eq!(outcome, ResolutionOutcome::Failed("IO error: timed out".to_string()));
    assert_eq!(outcome.content(), None);
}

#[test]
fn redirect_chain_within_budget_reaches_the_document() {
    for budget in [3, 4, 5, 100] {
        let (outcome, calls) = run("/a.example/", budget, chain);
        assert_eq!(calls, 3);
        assert_eq!(outcome, ResolutionOutcome::Content("# from c".to_string()));
    }
}

#[test]
fn redirect_chain_beyond_budget_gives_nothing() {
    let (outcome, calls) = run("/a.example/", 1, chain);
    assert_eq!(calls, 1);
    assert_eq!(outcome, ResolutionOutcome::Exhausted);
    assert_eq!(outcome.content(), None);
    assert_eq!(outcome.error(), None);

    let (outcome, calls) = run("/a.example/", 2, chain);
    assert_eq!(calls, 2);
    assert_eq!(outcome, ResolutionOutcome::Exhausted);
}

#[test]
fn no_fetch_without_budget() {
    let (outcome, calls) = run("/a.example/", 0, |_| panic!("no fetch expected"));
    assert_eq!(calls, 0);
    assert_eq!(outcome, ResolutionOutcome::Exhausted);
}

#[test]
fn first_address_that_does_not_parse_ends_the_resolution() {
    let (outcome, calls) = run("/:1965/doc", 5, |_| panic!("no fetch expected"));
    assert_eq!(calls, 0);
    assert_eq!(
        outcome,
        ResolutionOutcome::Failed(
            "URL parse error: Error parsing authority: Missing host".to_string()
        )
    );

    let (outcome, calls) = run("/a.example:port/doc", 0, |_| panic!("no fetch expected"));
    assert_eq!(calls, 0);
    assert_eq!(
        outcome.error(),
        Some(&"URL parse error: Error parsing authority: Invalid port".to_string())
    );
}

#[test]
fn redirect_target_that_does_not_parse_ends_the_resolution() {
    let (outcome, calls) = run("/a.example/", 5, |_| redirect("   "));
    assert_eq!(calls, 1);
    assert_eq!(outcome, ResolutionOutcome::Failed("URL Parse error: Empty URL".to_string()));

    let (outcome, calls) = run("/a.example/", 1, |_| redirect("gemini://h:x/"));
    assert_eq!(calls, 1);
    assert_eq!(
        outcome,
        ResolutionOutcome::Failed(
            "URL parse error: Error parsing authority: Invalid port".to_string()
        )
    );
}

#[test]
fn unknown_status_ends_the_resolution() {
    let (outcome, calls) = run("/a.example/", 5, |_| {
        FetchResult::from_response(Response {
            status: StatusCode::PermanentFailure(1),
            meta: "Not found".to_string(),
            body: Vec::new(),
        })
    });
    assert_eq!(calls, 1);
    assert_eq!(
        outcome,
        ResolutionOutcome::Failed("Unknown status code: PermanentFailure(1)".to_string())
    );
    assert_eq!(outcome.content(), None);
}

#[test]
fn responses_by_status_class() {
    let response = |status| Response { status, meta: "m".to_string(), body: vec![1, 2] };
    assert_eq!(
        FetchResult::from_response(response(StatusCode::Success(0))),
        FetchResult::Content { body: vec![1, 2] }
    );
    assert_eq!(
        FetchResult::from_response(response(StatusCode::Redirect(1))),
        FetchResult::RedirectTo { target: "m".to_string() }
    );
    let failure = |text: &str| FetchResult::Failure { reason: text.to_string() };
    assert_eq!(
        FetchResult::from_response(response(StatusCode::Input(0))),
        failure("Unknown status code: Input(0)")
    );
    assert_eq!(
        FetchResult::from_response(response(StatusCode::TemporaryFailure(4))),
        failure("Unknown status code: TemporaryFailure(4)")
    );
    assert_eq!(
        FetchResult::from_response(response(StatusCode::ClientCertRequired(2))),
        failure("Unknown status code: ClientCertRequired(2)")
    );
    assert_eq!(
        FetchResult::from_response(response(StatusCode::Unknown(255))),
        failure("Unknown status code: Unknown(255)")
    );
    assert_eq!(
        FetchResult::transport_error("TLS Error: x".to_string()),
        failure("TLS Error: x")
    );
}

#[test]
fn status_is_written_as_the_transport_writes_it() {
    for n in 0..=u8::MAX {
        let pairs = [
            (StatusCode::Input(n), gmi::protocol::StatusCode::Input(n)),
            (StatusCode::Success(n), gmi::protocol::StatusCode::Success(n)),
            (StatusCode::Redirect(n), gmi::protocol::StatusCode::Redirect(n)),
            (StatusCode::TemporaryFailure(n), gmi::protocol::StatusCode::TemporaryFailure(n)),
            (StatusCode::PermanentFailure(n), gmi::protocol::StatusCode::PermanentFailure(n)),
            (StatusCode::ClientCertRequired(n), gmi::protocol::StatusCode::ClientCertRequired(n)),
            (StatusCode::Unknown(n), gmi::protocol::StatusCode::Unknown(n)),
        ];
        for (ours, theirs) in pairs {
            assert_eq!(ours.debug(), format!("{:?}", theirs));
        }
    }
}

#[test]
fn a_finished_resolution_takes_nothing_more() {
    let resolver = Resolver::begin("/a.example/", 3).on_fetch(content("first"));
    assert!(resolver.pending().is_none());
    assert_eq!(resolver.fetches(), 1);
    let resolver = resolver.on_fetch(content("second"));
    let resolver = resolver.on_fetch(FetchResult::transport_error("late".to_string()));
    let resolver = resolver.on_fetch(redirect("gemini://b.example/"));
    let resolver = resolver.fail("late".to_string());
    let resolver = resolver.deliver("late".to_string());
    let resolver = resolver.redirect(Ok(address("b.example", Some("/"))));
    assert_eq!(resolver.fetches(), 1);
    assert_eq!(resolver.budget(), 3);
    assert_eq!(resolver.into_outcome(), Some(ResolutionOutcome::Content("first".to_string())));
}

#[test]
fn a_pending_resolution_has_no_outcome() {
    let resolver = Resolver::begin("/a.example/", 3);
    assert_eq!(resolver.fetches(), 0);
    assert!(resolver.pending().is_some());
    assert_eq!(resolver.into_outcome(), None);
}

#[test]
fn steps_with_results_given() {
    let resolver = Resolver::new(Ok(address("a.example", Some("/"))), 2);
    assert_eq!(resolver.pending(), Some(&address("a.example", Some("/"))));
    let resolver = resolver.redirect(Ok(address("b.example", Some("/x"))));
    assert_eq!(resolver.pending().unwrap().host, "b.example");
    assert_eq!(resolver.fetches(), 1);
    let resolver = resolver.deliver("doc".to_string());
    assert_eq!(resolver.fetches(), 2);
    assert_eq!(resolver.into_outcome(), Some(ResolutionOutcome::Content("doc".to_string())));

    let resolver = Resolver::new(Ok(address("a.example", None)), 2);
    let resolver = resolver.fail("broken".to_string());
    assert_eq!(resolver.into_outcome(), Some(ResolutionOutcome::Failed("broken".to_string())));

    let resolver = Resolver::new(Err(AddressError::EmptyUrl), 2);
    assert!(resolver.pending().is_none());
    assert_eq!(
        resolver.into_outcome(),
        Some(ResolutionOutcome::Failed("URL Parse error: Empty URL".to_string()))
    );
}

#[test]
fn the_redirect_target_is_fetched_next() {
    let resolver = Resolver::begin("/a.example/doc", 5);
    assert_eq!(resolver.pending().unwrap().host, "a.example");
    assert_eq!(resolver.pending().unwrap().path, Some("/doc".to_string()));
    let resolver = resolver.on_fetch(redirect("gemini://b.example:1966/x?y#z"));
    let url = resolver.pending().unwrap();
    assert_eq!(url.scheme, Some("gemini".to_string()));
    assert_eq!(url.host, "b.example");
    assert_eq!(url.port, Some(1966));
    assert_eq!(url.path, Some("/x".to_string()));
    assert_eq!(url.query, Some(vec!["y".to_string(), "z".to_string()]));
}

#[test]
fn addresses_in_their_parts() {
    assert_eq!(parse("gemini://example.com"), Ok(address("example.com", None)));
    let url = parse("  example.com/a/b  ").unwrap();
    assert_eq!(url.scheme, None);
    assert_eq!(url.path, Some("/a/b".to_string()));
}

#[test]
fn addresses_that_do_not_parse() {
    let empty = Err(AddressError::EmptyUrl.message());
    let no_host = Err(AddressError::MissingHost.message());
    let bad_port = Err(AddressError::InvalidPort.message());
    assert_eq!(parse(""), empty);
    assert_eq!(parse(" \t"), empty);
    assert_eq!(parse("gemini://:1965/"), no_host);
    assert_eq!(parse("gemini://"), no_host);
    assert_eq!(parse("gemini://h:99999/"), bad_port);
    assert_eq!(parse("gemini://h:-1/"), bad_port);
}

#[test]
fn address_errors_read_as_the_parser_writes_them() {
    assert_eq!(AddressError::EmptyUrl.message(), "URL Parse error: Empty URL");
    assert_eq!(
        AddressError::InvalidPort.message(),
        "URL parse error: Error parsing authority: Invalid port"
    );
    assert_eq!(
        AddressError::MissingHost.message(),
        "URL parse error: Error parsing authority: Missing host"
    );
    let cases = [
        ("", AddressError::EmptyUrl),
        ("gemini://h:x/", AddressError::InvalidPort),
        ("gemini://:1/", AddressError::MissingHost),
    ];
    for (text, error) in cases {
        let theirs = gmi::url::Url::try_from(text).unwrap_err();
        assert_eq!(error.message(), theirs.to_string());
        assert_eq!(parse(text), Err(theirs.to_string()));
    }
}

#[test]
fn addresses_are_parsed_as_the_parser_parses_them() {
    let texts = [
        "gemini://example.com",
        "gemini://example.com:1965/a/b?q#f#g",
        "example.com/x",
        "mercury://h/",
        "  gemini://h/p  ",
        "gemini://h:/p?",
    ];
    for text in texts {
        let theirs = gmi::url::Url::try_from(text).unwrap();
        let ours = parse(text).unwrap();
        assert_eq!(ours.scheme, theirs.scheme);
        assert_eq!(ours.host, theirs.authority.host);
        assert_eq!(ours.port, theirs.authority.port);
        assert_eq!(ours.path, theirs.path.map(|p| p.raw_path));
        assert_eq!(ours.query, theirs.query.map(|q| q.fragments));
    }
}

#[test]
fn well_formed_bytes_are_decoded_as_they_stand() {
    assert_eq!(decode(&[]), "");
    assert_eq!(decode("# héllo →".as_bytes()), "# héllo →");
}

#[test]
fn ill_formed_bytes_are_replaced() {
    assert_eq!(decode(&[b'a', 0xff, b'b']), "a\u{fffd}b");
    assert_eq!(decode(&[0xe2, 0x86]), "\u{fffd}");
}

#[test]
fn request_path_as_gemini_address() {
    assert_eq!(gemini_url_for("/example.com/doc"), "gemini://example.com/doc");
    assert_eq!(gemini_url_for("/"), "gemini://");
    assert_eq!(gemini_url_for(""), "gemini:/");
}
