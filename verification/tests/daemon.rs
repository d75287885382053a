use scorpio::daemon::antares::clock::epoch_ms_from;
use scorpio::daemon::antares::{
    current_epoch_ms, AntaresServiceImpl, ApiError, CreateMountRequest, CreateOutcome,
    HealthResponse, MountCollection, MountCreated, MountLifecycle, MountStatus, ServiceError,
};

fn request(mountpoint: &str, upper_dir: &str, readonly: bool) -> CreateMountRequest {
    CreateMountRequest {
        mountpoint: mountpoint.to_string(),
        upper_dir: upper_dir.to_string(),
        cl_dir: None,
        labels: vec![],
        readonly,
    }
}

fn create(service: &mut AntaresServiceImpl, req: CreateMountRequest) -> Result<MountStatus, ServiceError> {
    let pending = service.prepare_mount(req)?;
    match service.commit_mount(pending, Ok(())) {
        CreateOutcome::Created(status) => Ok(status),
        CreateOutcome::Failed(error) => Err(error),
        CreateOutcome::Discarded { error, .. } => Err(error),
    }
}

#[test]
fn test_healthcheck() {
    let health = HealthResponse::healthy(0, 0);
    assert_eq!(health.status, "healthy");
    assert_eq!(health.mount_count, 0);
    assert_eq!(health.uptime_secs, 0);
}

#[test]
fn test_create_mount_success() {
    let mut service = AntaresServiceImpl::new();
    let status = create(&mut service, request("/tmp/test", "/tmp/upper", false)).unwrap();
    let created = MountCreated::from_status(status);
    assert_eq!(created.mountpoint, "/tmp/test");
    assert!(matches!(created.state, MountLifecycle::Mounted));
}

#[test]
fn test_list_mounts_empty() {
    let mut service = AntaresServiceImpl::new();
    let collection = MountCollection::new(service.list_mounts().unwrap());
    assert!(collection.mounts.is_empty());
}

#[test]
fn test_describe_nonexistent_mount_returns_404() {
    let mut service = AntaresServiceImpl::new();
    let fake_id = uuid::Uuid::new_v4().as_u128();
    let error = service.describe_mount(fake_id).unwrap_err();
    assert_eq!(ApiError::from_service(error).status_code(), 404);
}

#[test]
fn test_error_response_format() {
    let mut service = AntaresServiceImpl::new();
    let fake = uuid::Uuid::new_v4();
    let error = service.describe_mount(fake.as_u128()).unwrap_err();
    let (status, body) = ApiError::from_service(error).into_response();
    assert_eq!(status, 404);
    assert_eq!(body.code, "NOT_FOUND");
    assert!(body.error.contains(&fake.to_string()));
}

#[test]
fn test_readonly_mount_rejected() {
    let mut service = AntaresServiceImpl::new();
    let error = create(&mut service, request("/tmp/test", "/tmp/upper", true)).unwrap_err();
    let (status, body) = ApiError::from_service(error).into_response();
    assert_eq!(status, 400);
    assert_eq!(body.code, "INVALID_REQUEST");
}

#[test]
fn test_empty_mountpoint_rejected() {
    let mut service = AntaresServiceImpl::new();
    let error = create(&mut service, request("", "/tmp/upper", false)).unwrap_err();
    assert_eq!(ApiError::from_service(error).status_code(), 400);
}

#[test]
fn test_concurrent_mount_requests() {
    let mut service = AntaresServiceImpl::new();
    for i in 0..10 {
        let result = create(
            &mut service,
            request(&format!("/tmp/mount{}", i), &format!("/tmp/upper{}", i), false),
        );
        assert!(result.is_ok());
    }
    let mounts = service.list_mounts().unwrap();
    assert_eq!(mounts.len(), 10);
}

#[test]
fn test_duplicate_mountpoint_rejected() {
    let mut service = AntaresServiceImpl::new();
    let req = request("/tmp/duplicate", "/tmp/upper", false);
    let result1 = create(&mut service, req.clone());
    assert!(result1.is_ok());
    let result2 = create(&mut service, req);
    assert!(matches!(result2, Err(ServiceError::InvalidRequest(_))));
    assert_eq!(service.list_mounts().unwrap().len(), 1);
}

#[test]
fn test_delete_mount_success() {
    let mut service = AntaresServiceImpl::new();
    let status = create(&mut service, request("/tmp/to_delete", "/tmp/upper", false)).unwrap();
    let mount_id = status.mount_id;
    let entry = service.delete_mount(mount_id).unwrap();
    assert!(matches!(entry.state, MountLifecycle::Unmounting));
    let deleted = entry.finish_unmount(Ok(()));
    assert!(matches!(deleted.state, MountLifecycle::Unmounted));
    let result = service.describe_mount(mount_id);
    assert!(matches!(result, Err(ServiceError::NotFound(_))));
}

#[test]
fn validation_names_each_fault() {
    let e = AntaresServiceImpl::validate_request(&request("", "/u", false)).unwrap_err();
    assert_eq!(e.message(), "invalid request: mountpoint cannot be empty");
    let e = AntaresServiceImpl::validate_request(&request("/m", "", false)).unwrap_err();
    assert_eq!(e.message(), "invalid request: upper_dir cannot be empty");
    let e = AntaresServiceImpl::validate_request(&request("/m", "/u", true)).unwrap_err();
    assert_eq!(e.message(), "invalid request: readonly mounts are not yet supported");
    let e = AntaresServiceImpl::validate_request(&request("", "", true)).unwrap_err();
    assert_eq!(e.message(), "invalid request: mountpoint cannot be empty");
    assert!(AntaresServiceImpl::validate_request(&request("/m", "/u", false)).is_ok());
}

#[test]
fn rejected_request_creates_no_entry() {
    let mut service = AntaresServiceImpl::new();
    assert!(create(&mut service, request("", "/u", false)).is_err());
    assert!(create(&mut service, request("/m", "", false)).is_err());
    assert!(create(&mut service, request("/m", "/u", true)).is_err());
    assert!(service.list_mounts().unwrap().is_empty());
    assert_eq!(service.health_info().mount_count, 0);
}

#[test]
fn empty_cl_dir_is_a_fuse_failure() {
    let mut service = AntaresServiceImpl::new();
    let mut req = request("/m", "/u", false);
    req.cl_dir = Some(String::new());
    let error = service.prepare_mount(req).unwrap_err();
    assert!(matches!(error, ServiceError::FuseFailure(_)));
    assert_eq!(
        error.message(),
        "failed to interact with fuse stack: failed to create fuse: CL directory path is empty"
    );
    assert_eq!(ApiError::from_service(error).status_code(), 500);
}

#[test]
fn commit_registers_with_given_identifier_and_time() {
    let mut service = AntaresServiceImpl::new();
    let mut req = request("/m", "/u", false);
    req.cl_dir = Some("/cl".to_string());
    req.labels = vec!["a".to_string(), "b".to_string()];
    let pending = service.prepare_mount(req).unwrap();
    assert_eq!(pending.request().mountpoint, "/m");
    assert_eq!(pending.engine().mountpoint(), "/m");
    assert!(!pending.engine().is_mounted());
    let outcome = service.commit_mount_with(pending, Ok(()), 42, 1_000);
    let status = match outcome {
        CreateOutcome::Created(status) => status,
        other => panic!("unexpected outcome {:?}", other),
    };
    assert_eq!(status.mount_id, 42);
    assert_eq!(status.mountpoint, "/m");
    assert_eq!(status.layers.upper, "/u");
    assert_eq!(status.layers.cl, Some("/cl".to_string()));
    assert_eq!(status.layers.dicfuse, "shared");
    assert!(matches!(status.state, MountLifecycle::Mounted));
    assert_eq!(status.created_at_epoch_ms, 1_000);
    assert_eq!(status.last_seen_epoch_ms, 1_000);
    assert!(service.is_mountpoint_in_use("/m"));
    assert!(!service.is_mountpoint_in_use("/other"));
    let described = service.describe_mount(42).unwrap();
    assert_eq!(described.mount_id, 42);
    assert_eq!(described.created_at_epoch_ms, 1_000);
    assert_eq!(service.health_info().mount_count, 1);
    assert_eq!(service.health_info().status, "healthy");
}

#[test]
fn kernel_refusal_fails_the_mount() {
    let mut service = AntaresServiceImpl::new();
    let pending = service.prepare_mount(request("/m", "/u", false)).unwrap();
    let outcome = service.commit_mount_with(pending, Err("permission denied".to_string()), 7, 5);
    match outcome {
        CreateOutcome::Failed(error) => {
            assert_eq!(
                error.message(),
                "failed to interact with fuse stack: failed to mount: permission denied"
            );
            let (status, body) = ApiError::from_service(error).into_response();
            assert_eq!(status, 500);
            assert_eq!(body.code, "FUSE_ERROR");
            assert_eq!(body.error, "failed to mount: permission denied");
        }
        other => panic!("unexpected outcome {:?}", other),
    }
    assert!(service.list_mounts().unwrap().is_empty());
    assert!(matches!(service.describe_mount(7), Err(ServiceError::NotFound(7))));
}

#[test]
fn losing_racer_gets_its_engine_back() {
    let mut service = AntaresServiceImpl::new();
    let first = service.prepare_mount(request("/race", "/u1", false)).unwrap();
    let second = service.prepare_mount(request("/race", "/u2", false)).unwrap();
    assert!(matches!(service.commit_mount_with(first, Ok(()), 1, 10), CreateOutcome::Created(_)));
    match service.commit_mount_with(second, Ok(()), 2, 11) {
        CreateOutcome::Discarded { error, mut engine } => {
            assert_eq!(
                error.message(),
                "invalid request: mountpoint /race was claimed by another request"
            );
            assert!(engine.is_mounted());
            assert_eq!(engine.upper_dir(), "/u2");
            assert!(engine.unmount(Ok(())).is_ok());
            assert!(!engine.is_mounted());
        }
        other => panic!("unexpected outcome {:?}", other),
    }
    assert_eq!(service.list_mounts().unwrap().len(), 1);
    assert!(matches!(service.describe_mount(2), Err(ServiceError::NotFound(2))));
    let error = service.prepare_mount(request("/race", "/u3", false)).unwrap_err();
    assert_eq!(error.message(), "invalid request: mountpoint /race is already in use");
}

#[test]
fn failed_unmount_is_reported_with_its_reason() {
    let mut service = AntaresServiceImpl::new();
    let pending = service.prepare_mount(request("/m", "/u", false)).unwrap();
    assert!(matches!(service.commit_mount_with(pending, Ok(()), 9, 100), CreateOutcome::Created(_)));
    let entry = service.delete_mount_at(9, 250).unwrap();
    assert!(matches!(entry.state, MountLifecycle::Unmounting));
    assert_eq!(entry.last_seen_epoch_ms, 250);
    assert_eq!(entry.created_at_epoch_ms, 100);
    let status = entry.finish_unmount(Err("device busy".to_string()));
    match status.state {
        MountLifecycle::Failed { reason } => assert_eq!(reason, "unmount failed: device busy"),
        other => panic!("unexpected state {:?}", other),
    }
    assert_eq!(status.mount_id, 9);
    assert_eq!(status.last_seen_epoch_ms, 250);
    assert!(matches!(service.describe_mount(9), Err(ServiceError::NotFound(9))));
    assert!(matches!(service.delete_mount_at(9, 300), Err(ServiceError::NotFound(9))));
    assert!(!service.is_mountpoint_in_use("/m"));
    assert!(create(&mut service, request("/m", "/u", false)).is_ok());
}

#[test]
fn shutdown_drains_every_mount() {
    let mut service = AntaresServiceImpl::new();
    for i in 0..4u128 {
        let pending = service
            .prepare_mount(request(&format!("/m{}", i), &format!("/u{}", i), false))
            .unwrap();
        assert!(matches!(
            service.commit_mount_with(pending, Ok(()), 100 + i, 1),
            CreateOutcome::Created(_)
        ));
    }
    let drained = service.shutdown_cleanup();
    assert_eq!(drained.len(), 4);
    let mut ids: Vec<u128> = drained.iter().map(|e| e.mount_id).collect();
    ids.sort();
    assert_eq!(ids, vec![100, 101, 102, 103]);
    let mut failed = 0;
    for (n, entry) in drained.into_iter().enumerate() {
        let kernel = if n == 1 { Err("busy".to_string()) } else { Ok(()) };
        let status = entry.finish_unmount(kernel);
        if matches!(status.state, MountLifecycle::Failed { .. }) {
            failed += 1;
        }
    }
    assert_eq!(failed, 1);
    assert!(service.list_mounts().unwrap().is_empty());
    assert!(service.shutdown_cleanup().is_empty());
}

#[test]
fn end_to_end_mount_list_delete_describe() {
    let mut service = AntaresServiceImpl::new();
    let status = create(&mut service, request("/m", "/u", false)).unwrap();
    assert!(matches!(status.state, MountLifecycle::Mounted));
    let id = status.mount_id;
    let listed = service.list_mounts().unwrap();
    assert_eq!(listed.len(), 1);
    assert_eq!(listed[0].mountpoint, "/m");
    assert_eq!(listed[0].mount_id, id);
    let deleted = service.delete_mount(id).unwrap().finish_unmount(Ok(()));
    assert!(matches!(deleted.state, MountLifecycle::Unmounted));
    let error = service.describe_mount(id).unwrap_err();
    assert_eq!(ApiError::from_service(error).status_code(), 404);
}

#[test]
fn fresh_identifiers_are_random_uuids() {
    let mut service = AntaresServiceImpl::new();
    let a = create(&mut service, request("/a", "/ua", false)).unwrap().mount_id;
    let b = create(&mut service, request("/b", "/ub", false)).unwrap().mount_id;
    assert_ne!(a, b);
    for id in [a, b] {
        assert_eq!((id >> 76) & 0xf, 4);
        assert_eq!((id >> 62) & 0x3, 2);
        assert_eq!(uuid::Uuid::from_u128(id).get_version_num(), 4);
    }
}

#[test]
fn timestamps_come_from_the_clock() {
    let before = std::time::SystemTime::now()
        .duration_since(std::time::UNIX_EPOCH)
        .unwrap()
        .as_millis() as u64;
    let stamp = current_epoch_ms();
    assert!(stamp >= before);
    assert!(stamp - before < 60_000);
    let mut service = AntaresServiceImpl::new();
    let status = create(&mut service, request("/m", "/u", false)).unwrap();
    assert!(status.created_at_epoch_ms >= before);
    assert_eq!(status.created_at_epoch_ms, status.last_seen_epoch_ms);
    let mut entry = service.delete_mount(status.mount_id).unwrap();
    assert!(entry.last_seen_epoch_ms >= status.created_at_epoch_ms);
    entry.last_seen_epoch_ms = 0;
    entry.update_last_seen();
    assert!(entry.last_seen_epoch_ms >= before);
}

#[test]
fn epoch_milliseconds_are_cut_to_64_bits() {
    assert_eq!(epoch_ms_from(None), 0);
    assert_eq!(epoch_ms_from(Some(0)), 0);
    assert_eq!(epoch_ms_from(Some(1_700_000_000_123)), 1_700_000_000_123);
    assert_eq!(epoch_ms_from(Some(u64::MAX as u128)), u64::MAX);
    assert_eq!(epoch_ms_from(Some(u64::MAX as u128 + 1)), 0);
    assert_eq!(epoch_ms_from(Some((1u128 << 64) + 77)), 77);
}

#[test]
fn lifecycle_terminal_states() {
    assert!(!MountLifecycle::Provisioning.is_terminal());
    assert!(!MountLifecycle::Mounted.is_terminal());
    assert!(!MountLifecycle::Unmounting.is_terminal());
    assert!(MountLifecycle::Unmounted.is_terminal());
    assert!(MountLifecycle::Failed { reason: "x".to_string() }.is_terminal());
}

#[test]
fn seen_at_changes_the_last_seen_timestamp_only() {
    let mut service = AntaresServiceImpl::new();
    let pending = service.prepare_mount(request("/m", "/u", false)).unwrap();
    assert!(matches!(service.commit_mount_with(pending, Ok(()), 3, 40), CreateOutcome::Created(_)));
    let mut entry = service.delete_mount_at(3, 50).unwrap();
    entry.seen_at(77);
    assert_eq!(entry.last_seen_epoch_ms, 77);
    assert_eq!(entry.created_at_epoch_ms, 40);
    assert_eq!(entry.mount_id, 3);
    assert_eq!(entry.request.mountpoint, "/m");
    assert!(matches!(entry.state, MountLifecycle::Unmounting));
    entry.seen_at(0);
    assert_eq!(entry.to_status().last_seen_epoch_ms, 0);
}

#[test]
fn describing_refreshes_last_seen() {
    let mut service = AntaresServiceImpl::new();
    let pending = service.prepare_mount(request("/a", "/ua", false)).unwrap();
    assert!(matches!(service.commit_mount_with(pending, Ok(()), 1, 100), CreateOutcome::Created(_)));
    let pending = service.prepare_mount(request("/b", "/ub", false)).unwrap();
    assert!(matches!(service.commit_mount_with(pending, Ok(()), 2, 100), CreateOutcome::Created(_)));
    let status = service.describe_mount_at(1, 250).unwrap();
    assert_eq!(status.last_seen_epoch_ms, 250);
    assert_eq!(status.created_at_epoch_ms, 100);
    assert_eq!(status.mount_id, 1);
    assert_eq!(status.mountpoint, "/a");
    assert!(matches!(status.state, MountLifecycle::Mounted));
    assert!(matches!(service.describe_mount_at(9, 300), Err(ServiceError::NotFound(9))));
    let entry = service.delete_mount_at(1, 400).unwrap();
    assert_eq!(entry.created_at_epoch_ms, 100);
    let untouched = service.delete_mount_at(2, 400).unwrap();
    assert_eq!(untouched.created_at_epoch_ms, 100);
    assert_eq!(untouched.last_seen_epoch_ms, 400);
    let mut service = AntaresServiceImpl::new();
    let pending = service.prepare_mount(request("/a", "/ua", false)).unwrap();
    assert!(matches!(service.commit_mount_with(pending, Ok(()), 1, 100), CreateOutcome::Created(_)));
    assert_eq!(service.describe_mount_at(1, 250).unwrap().last_seen_epoch_ms, 250);
    assert_eq!(service.describe_mount_at(1, 260).unwrap().last_seen_epoch_ms, 260);
    let listed = service.list_mounts_at(270).unwrap();
    assert_eq!(listed[0].last_seen_epoch_ms, 270);
    assert_eq!(listed[0].created_at_epoch_ms, 100);
    let stamp = current_epoch_ms();
    let described = service.describe_mount(1).unwrap();
    assert!(described.last_seen_epoch_ms >= stamp);
    assert_eq!(described.created_at_epoch_ms, 100);
    assert_eq!(service.health_info().mount_count, 1);
}

#[test]
fn listing_refreshes_every_entry() {
    let mut service = AntaresServiceImpl::new();
    for i in 0..3u128 {
        let pending = service
            .prepare_mount(request(&format!("/m{}", i), &format!("/u{}", i), false))
            .unwrap();
        assert!(matches!(
            service.commit_mount_with(pending, Ok(()), 10 + i, 5 + i as u64),
            CreateOutcome::Created(_)
        ));
    }
    let mut listed = service.list_mounts_at(900).unwrap();
    listed.sort_by_key(|s| s.mount_id);
    assert_eq!(listed.len(), 3);
    for (i, status) in listed.iter().enumerate() {
        assert_eq!(status.mount_id, 10 + i as u128);
        assert_eq!(status.last_seen_epoch_ms, 900);
        assert_eq!(status.created_at_epoch_ms, 5 + i as u64);
        assert_eq!(status.mountpoint, format!("/m{}", i));
    }
    let kept = service.delete_mount_at(11, 950).unwrap();
    assert_eq!(kept.created_at_epoch_ms, 6);
    assert_eq!(service.list_mounts_at(960).unwrap().len(), 2);
    let stamp = current_epoch_ms();
    for status in service.list_mounts().unwrap() {
        assert!(status.last_seen_epoch_ms >= stamp);
    }
}

#[test]
fn registered_identifier_is_never_replaced() {
    let mut service = AntaresServiceImpl::new();
    let first = service.prepare_mount(request("/a", "/ua", false)).unwrap();
    assert!(matches!(service.commit_mount_with(first, Ok(()), 0x2a, 1), CreateOutcome::Created(_)));
    let second = service.prepare_mount(request("/b", "/ub", false)).unwrap();
    match service.commit_mount_with(second, Ok(()), 0x2a, 2) {
        CreateOutcome::Discarded { error, engine } => {
            assert_eq!(
                error.message(),
                "unexpected error: mount identifier 00000000-0000-0000-0000-00000000002a is already registered"
            );
            assert_eq!(ApiError::from_service(error).status_code(), 500);
            assert!(engine.is_mounted());
            assert_eq!(engine.mountpoint(), "/b");
        }
        other => panic!("unexpected outcome {:?}", other),
    }
    let listed = service.list_mounts_at(3).unwrap();
    assert_eq!(listed.len(), 1);
    assert_eq!(listed[0].mountpoint, "/a");
    assert_eq!(listed[0].created_at_epoch_ms, 1);
    assert!(!service.is_mountpoint_in_use("/b"));
    let third = service.prepare_mount(request("/a", "/uc", false)).unwrap_err();
    assert!(matches!(third, ServiceError::InvalidRequest(_)));
}

#[test]
fn health_counts_mounts_and_shows_the_uptime_given() {
    let mut service = AntaresServiceImpl::new();
    let health = service.health_at(12);
    assert_eq!(health.status, "healthy");
    assert_eq!(health.mount_count, 0);
    assert_eq!(health.uptime_secs, 12);
    assert!(create(&mut service, request("/m", "/u", false)).is_ok());
    let health = service.health_at(0);
    assert_eq!(health.mount_count, 1);
    assert_eq!(health.uptime_secs, 0);
    assert!(service.health_info().uptime_secs < 60);
}
