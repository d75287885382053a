use scorpio::daemon::antares::{ApiError, ServiceError};

#[test]
fn every_error_maps_to_its_status_and_code() {
    let cases: Vec<(ApiError, u16, &str, &str)> = vec![
        (
            ApiError::Service(ServiceError::InvalidRequest("bad".to_string())),
            400,
            "INVALID_REQUEST",
            "bad",
        ),
        (
            ApiError::Service(ServiceError::NotFound(0x0123456789abcdef0123456789abcdef)),
            404,
            "NOT_FOUND",
            "mount 01234567-89ab-cdef-0123-456789abcdef not found",
        ),
        (
            ApiError::Service(ServiceError::FuseFailure("no fuse".to_string())),
            500,
            "FUSE_ERROR",
            "no fuse",
        ),
        (
            ApiError::Service(ServiceError::Internal("boom".to_string())),
            500,
            "INTERNAL_ERROR",
            "boom",
        ),
        (ApiError::BadPayload("not json".to_string()), 400, "BAD_PAYLOAD", "not json"),
        (ApiError::Shutdown, 503, "SHUTDOWN", "server is shutting down"),
    ];
    for (error, status, code, text) in cases {
        assert_eq!(error.status_code(), status);
        let (got_status, body) = error.into_response();
        assert_eq!(got_status, status);
        assert_eq!(body.code, code);
        assert_eq!(body.error, text);
    }
}

#[test]
fn errors_read_as_one_line() {
    assert_eq!(
        ServiceError::InvalidRequest("x".to_string()).message(),
        "invalid request: x"
    );
    assert_eq!(
        ServiceError::NotFound(0xa1a2a3a4b1b2c1c2d1d2d3d4d5d6d7d8).message(),
        "mount not found: a1a2a3a4-b1b2-c1c2-d1d2-d3d4d5d6d7d8"
    );
    assert_eq!(
        ServiceError::FuseFailure("y".to_string()).message(),
        "failed to interact with fuse stack: y"
    );
    assert_eq!(ServiceError::Internal("z".to_string()).message(), "unexpected error: z");
    assert_eq!(
        ApiError::Service(ServiceError::Internal("z".to_string())).message(),
        "unexpected error: z"
    );
    assert_eq!(
        ApiError::BadPayload("p".to_string()).message(),
        "serde payload rejected: p"
    );
    assert_eq!(ApiError::Shutdown.message(), "server shutting down");
}

#[test]
fn identifiers_are_shown_hyphenated() {
    assert_eq!(
        ServiceError::NotFound(0).message(),
        "mount not found: 00000000-0000-0000-0000-000000000000"
    );
    assert_eq!(
        ServiceError::NotFound(u128::MAX).message(),
        "mount not found: ffffffff-ffff-ffff-ffff-ffffffffffff"
    );
    assert_eq!(
        ServiceError::NotFound(1).message(),
        "mount not found: 00000000-0000-0000-0000-000000000001"
    );
    assert_eq!(
        ServiceError::NotFound(0xf << 124).message(),
        "mount not found: f0000000-0000-0000-0000-000000000000"
    );
    let id = uuid::Uuid::new_v4();
    assert_eq!(
        ServiceError::NotFound(id.as_u128()).message(),
        format!("mount not found: {}", id)
    );
}

#[test]
fn server_failures_are_internal_errors() {
    let bind = ApiError::bind_failed("127.0.0.1:80", "address in use");
    assert_eq!(bind.status_code(), 500);
    assert_eq!(bind.message(), "unexpected error: failed to bind to 127.0.0.1:80: address in use");
    let (_, body) = bind.into_response();
    assert_eq!(body.code, "INTERNAL_ERROR");
    assert_eq!(body.error, "failed to bind to 127.0.0.1:80: address in use");
    let served = ApiError::server_failed("reset");
    assert_eq!(served.message(), "unexpected error: server error: reset");
}
