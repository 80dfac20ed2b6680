use uploader::cloudflare::stream::{
    ApiError, ClientBuilder, CloudflareResponse, ProviderError, UploadTurn, Video, VideoMeta,
    VideoRequest,
};

fn built_client() -> uploader::cloudflare::stream::Client {
    ClientBuilder::new()
        .token("tok".to_string())
        .account_id("acct".to_string())
        .build()
        .expect("both credentials are set")
}

fn ok_envelope(uid: &str, ready: bool) -> Result<CloudflareResponse<Video>, String> {
    Ok(CloudflareResponse::new(
        Some(Video::new(
            uid.to_string(),
            format!("https://watch/{}", uid),
            ready,
        )),
        true,
        vec![],
        vec![],
    ))
}

fn sample_request() -> VideoRequest {
    VideoRequest {
        url: "https://example.com/movie.mp4".to_string(),
        meta: VideoMeta { name: "Test video".to_string() },
    }
}

#[test]
fn post_response_not_ready_records_the_returned_uid() {
    let client = built_client();
    let turn = client.upload_posted(ok_envelope("uid-7", false));
    match turn {
        Ok(UploadTurn::Poll { state }) => assert_eq!(state.uid, "uid-7"),
        _ => panic!("a not-ready POST response must lead to polling"),
    }
}

#[test]
fn post_response_already_ready_finishes_without_polling() {
    let client = built_client();
    match client.upload_posted(ok_envelope("uid-3", true)) {
        Ok(UploadTurn::Done { video }) => assert_eq!(video.uid, "uid-3"),
        _ => panic!("a ready POST response ends the workflow at once"),
    }
}

#[test]
fn scripted_polls_take_three_gets_and_return_the_third_payload() {
    // GET responses scripted as [ready=false, ready=false, ready=true]:
    // exactly 3 GET turns are taken after the POST, every GET names the uid
    // from the POST, and the workflow returns the third response's payload.
    let client = built_client();
    let request = client.copy_request(sample_request());
    assert_eq!(request.authorization, "Bearer: tok");

    let mut turn = client
        .upload_posted(ok_envelope("uid-1", false))
        .expect("the POST succeeded");

    let script: Vec<bool> = vec![false, false, true];
    let mut gets: usize = 0;
    let video = loop {
        match turn {
            UploadTurn::Done { video } => break video,
            UploadTurn::Poll { state } => {
                let get = client.poll_request(&state);
                assert_eq!(
                    get.url,
                    "https://api.cloudflare.com/client/v4/accounts/acct/stream/uid-1"
                );
                assert_eq!(get.authorization, "Bearer: tok");
                let ready = script[gets];
                gets += 1;
                turn = client
                    .upload_polled(state, ok_envelope("uid-1", ready))
                    .expect("every scripted GET succeeded");
            }
        }
    };
    assert_eq!(gets, 3);
    assert_eq!(video.uid, "uid-1");
    assert!(video.ready_to_stream);
    assert_eq!(video.preview, "https://watch/uid-1");
}

#[test]
fn polling_stops_at_the_first_ready_response() {
    let client = built_client();
    let mut turn = client
        .upload_posted(ok_envelope("uid-5", false))
        .expect("the POST succeeded");
    // First poll already answers ready: no second poll happens.
    let mut polls: usize = 0;
    let video = loop {
        match turn {
            UploadTurn::Done { video } => break video,
            UploadTurn::Poll { state } => {
                polls += 1;
                turn = client
                    .upload_polled(state, ok_envelope("uid-5", true))
                    .expect("the GET succeeded");
            }
        }
    };
    assert_eq!(polls, 1);
    assert_eq!(video.uid, "uid-5");
}

#[test]
fn rejected_post_fails_immediately_with_the_provider_errors() {
    // POST response success=false, errors=["bad url"]: the workflow fails
    // at once with a provider error carrying "bad url"; no GET turn exists.
    let client = built_client();
    let response: Result<CloudflareResponse<Video>, String> = Ok(CloudflareResponse::new(
        None,
        false,
        vec!["bad url".to_string()],
        vec![],
    ));
    match client.upload_posted(response) {
        Err(ApiError::Provider { error: ProviderError::Rejected { errors } }) => {
            assert_eq!(errors, vec!["bad url".to_string()]);
        }
        _ => panic!("a rejected POST must abort the workflow with its errors"),
    }
}

#[test]
fn malformed_success_on_poll_aborts() {
    let client = built_client();
    let mut_turn = client
        .upload_posted(ok_envelope("uid-8", false))
        .expect("the POST succeeded");
    match mut_turn {
        UploadTurn::Poll { state } => {
            let malformed: Result<CloudflareResponse<Video>, String> =
                Ok(CloudflareResponse::new(None, true, vec![], vec![]));
            match client.upload_polled(state, malformed) {
                Err(ApiError::Provider { error: ProviderError::MissingResult }) => {}
                _ => panic!("success without a payload aborts the workflow"),
            }
        }
        _ => panic!("a not-ready POST response must lead to polling"),
    }
}

#[test]
fn transport_failure_on_poll_aborts() {
    let client = built_client();
    let turn = client
        .upload_posted(ok_envelope("uid-2", false))
        .expect("the POST succeeded");
    match turn {
        UploadTurn::Poll { state } => {
            match client.upload_polled(state, Err("timed out".to_string())) {
                Err(ApiError::Transport { message }) => assert_eq!(message, "timed out"),
                _ => panic!("a transport failure during polling aborts the workflow"),
            }
        }
        _ => panic!("a not-ready POST response must lead to polling"),
    }
}
