use streamshare::client::{build_create_request, build_upload_url, name_or_unknown};
use streamshare::session::session_from_members;
use streamshare::{
    session_from_response, HttpMethod, HttpRequest, PathKind, StreamShare, TransferError,
    TransferSession, UploadAction, UploadEvent, UploadPhase,
};

fn client() -> StreamShare {
    StreamShare::new("files.example.org".to_string(), 4)
}

fn session(id: &str, token: &str) -> TransferSession {
    TransferSession { file_identifier: id.to_string(), deletion_token: token.to_string() }
}

#[test]
fn new_keeps_what_it_is_given() {
    let client = StreamShare::new("host.test:8443".to_string(), 65536);
    assert_eq!(client.server_url(), "host.test:8443");
    assert_eq!(client.chunk_size(), 65536);
}

#[test]
fn default_is_the_public_server_with_chunks_of_one_mebibyte() {
    let client = StreamShare::default();
    assert_eq!(client.server_url(), "streamshare.wireway.ch");
    assert_eq!(client.chunk_size(), 1024 * 1024);
    assert_eq!(streamshare::DEFAULT_CHUNK_SIZE, 1024 * 1024);
}

#[test]
fn upload_begins_with_the_create_call() {
    let engine = client().upload("/data/report.pdf", PathKind::File, 10).unwrap();
    assert_eq!(engine.phase(), UploadPhase::Creating);
    assert_eq!(
        engine.pending(),
        UploadAction::Create(HttpRequest {
            method: HttpMethod::Post,
            url: "https://files.example.org/api/create".to_string(),
            body: Some("{\"name\":\"report.pdf\"}".to_string()),
        })
    );
}

#[test]
fn create_body_escapes_the_name_as_json() {
    let request = build_create_request("h", "a\"b\\c\n.txt");
    assert_eq!(request.body, Some("{\"name\":\"a\\\"b\\\\c\\n.txt\"}".to_string()));
    let request = build_create_request("h", "");
    assert_eq!(request.body, Some("{\"name\":\"\"}".to_string()));
    let request = build_create_request("h", "späť.txt");
    assert_eq!(request.body, Some("{\"name\":\"späť.txt\"}".to_string()));
}

#[test]
fn announced_name_is_the_last_component_of_the_path() {
    for (path, name) in [
        ("/data/report.pdf", "report.pdf"),
        ("report.pdf", "report.pdf"),
        ("dir/sub/archive.tar.gz", "archive.tar.gz"),
        ("/data/dir/", "dir"),
        ("/data/..", "unknown"),
        ("/", "unknown"),
        ("..", "unknown"),
    ] {
        let engine = client().upload(path, PathKind::File, 1).unwrap();
        match engine.pending() {
            UploadAction::Create(request) => {
                assert_eq!(request.body, Some(format!("{{\"name\":\"{}\"}}", name)), "{}", path)
            }
            other => panic!("unexpected action {:?}", other),
        }
    }
}

#[test]
fn name_falls_back_to_unknown() {
    assert_eq!(name_or_unknown(None), "unknown");
    assert_eq!(name_or_unknown(Some("a.txt".to_string())), "a.txt");
    assert_eq!(name_or_unknown(Some(String::new())), "");
}

#[test]
fn upload_channel_is_addressed_by_the_file_identifier() {
    assert_eq!(
        build_upload_url("files.example.org", "f-123"),
        "wss://files.example.org/api/upload/f-123"
    );
    let mut engine = client().upload("/data/report.pdf", PathKind::File, 10).unwrap();
    let action = engine.step(UploadEvent::CreateAnswered {
        status: 201,
        body: "{\"deletionToken\": \"t\", \"fileIdentifier\": \"abc\", \"ttl\": 3600}".to_string(),
    });
    assert_eq!(
        action,
        UploadAction::Connect { url: "wss://files.example.org/api/upload/abc".to_string() }
    );
    assert_eq!(engine.phase(), UploadPhase::Connecting);
}

#[test]
fn session_is_read_from_the_create_response() {
    assert_eq!(
        session_from_response(200, "{\"fileIdentifier\":\"f-123\",\"deletionToken\":\"t-456\"}"),
        Ok(session("f-123", "t-456"))
    );
    assert_eq!(
        session_from_response(
            200,
            " { \"size\": 3, \"deletionToken\": \"t\\u0041\", \"fileIdentifier\": \"\" } "
        ),
        Ok(session("", "tA"))
    );
}

#[test]
fn status_outside_2xx_is_create_failed() {
    let body = "{\"fileIdentifier\":\"f-123\",\"deletionToken\":\"t-456\"}";
    for status in [100u16, 199, 300, 301, 400, 404, 500, 503] {
        assert_eq!(session_from_response(status, body), Err(TransferError::CreateFailed(status)));
    }
    for status in [200u16, 201, 204, 299] {
        assert_eq!(session_from_response(status, body), Ok(session("f-123", "t-456")));
    }
}

#[test]
fn malformed_create_response_is_an_invalid_server_response() {
    for body in [
        "{\"fileIdentifier\":\"f-123\"}",
        "{\"deletionToken\":\"t-456\"}",
        "{\"fileIdentifier\":\"f-123\",\"deletionToken\":7}",
        "{\"fileIdentifier\":null,\"deletionToken\":\"t\"}",
        "{\"file_identifier\":\"f-123\",\"deletion_token\":\"t-456\"}",
        "{\"fileIdentifier\":\"f-123\",\"deletionToken\":\"t-456\"",
        "{\"fileIdentifier\":\"f-123\",\"deletionToken\":\"t-456\"} trailing",
        "[\"f-123\",\"t-456\"]",
        "\"f-123\"",
        "not json",
        "",
    ] {
        assert_eq!(
            session_from_response(200, body),
            Err(TransferError::InvalidServerResponse),
            "{}",
            body
        );
    }
}

#[test]
fn malformed_create_response_never_asks_for_the_channel() {
    let mut engine = client().upload("/data/report.pdf", PathKind::File, 10).unwrap();
    let action = engine.step(UploadEvent::CreateAnswered {
        status: 200,
        body: "{\"fileIdentifier\":\"f-123\"}".to_string(),
    });
    assert_eq!(action, UploadAction::Fail(TransferError::InvalidServerResponse));
    assert_eq!(engine.phase(), UploadPhase::Errored);
    let action = engine.step(UploadEvent::Connected);
    assert_eq!(action, UploadAction::Fail(TransferError::InvalidServerResponse));
    assert_eq!(engine.pending(), UploadAction::Fail(TransferError::InvalidServerResponse));
}

#[test]
fn rejected_create_call_aborts_the_upload() {
    let mut engine = client().upload("/data/report.pdf", PathKind::File, 10).unwrap();
    let action = engine.step(UploadEvent::CreateAnswered {
        status: 503,
        body: "{\"fileIdentifier\":\"f-123\",\"deletionToken\":\"t-456\"}".to_string(),
    });
    assert_eq!(action, UploadAction::Fail(TransferError::CreateFailed(503)));
}

#[test]
fn session_needs_both_members() {
    assert_eq!(
        session_from_members(Some("a".to_string()), Some("b".to_string())),
        Ok(session("a", "b"))
    );
    assert_eq!(
        session_from_members(None, Some("b".to_string())),
        Err(TransferError::InvalidServerResponse)
    );
    assert_eq!(
        session_from_members(Some("a".to_string()), None),
        Err(TransferError::InvalidServerResponse)
    );
    assert_eq!(session_from_members(None, None), Err(TransferError::InvalidServerResponse));
}

#[test]
fn delete_call_names_the_file_and_the_token() {
    let request = client().delete("f-123", "t-456");
    assert_eq!(
        request,
        HttpRequest {
            method: HttpMethod::Delete,
            url: "https://files.example.org/api/delete/f-123/t-456".to_string(),
            body: None,
        }
    );
}

#[test]
fn delete_succeeds_on_2xx_only() {
    for status in [200u16, 202, 204, 299] {
        assert_eq!(streamshare::delete_outcome(status), Ok(()));
    }
    for status in [0u16, 199, 300, 403, 404, 410, 500, 65535] {
        assert_eq!(streamshare::delete_outcome(status), Err(TransferError::DeleteFailed(status)));
    }
}

#[test]
fn download_call_names_the_file() {
    let request = client().download("f-123");
    assert_eq!(
        request,
        HttpRequest {
            method: HttpMethod::Get,
            url: "https://files.example.org/download/f-123".to_string(),
            body: None,
        }
    );
}

#[test]
fn download_succeeds_on_2xx_only() {
    for status in [200u16, 206, 299] {
        assert_eq!(streamshare::download_outcome(status), Ok(()));
        assert!(streamshare::is_success(status));
    }
    for status in [199u16, 300, 304, 404, 500] {
        assert_eq!(
            streamshare::download_outcome(status),
            Err(TransferError::DownloadFailed(status))
        );
        assert!(!streamshare::is_success(status));
    }
}
