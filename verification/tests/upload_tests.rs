use rimmich::upload::{
    asset_endpoint, build_upload_form, classify_response, device_asset_id, failure_detail,
    task_failure_detail, wire_is_ok, UploadOutcome, WireResult,
};

#[test]
fn endpoint_trims_trailing_slashes() {
    assert_eq!(
        asset_endpoint("http://localhost:2283"),
        "http://localhost:2283/api/assets"
    );
    assert_eq!(
        asset_endpoint("http://localhost:2283/"),
        "http://localhost:2283/api/assets"
    );
    assert_eq!(
        asset_endpoint("http://localhost:2283///"),
        "http://localhost:2283/api/assets"
    );
    assert_eq!(asset_endpoint(""), "/api/assets");
}

#[test]
fn device_asset_id_is_name_dash_size() {
    assert_eq!(device_asset_id("a.jpg", 123), "a.jpg-123");
    assert_eq!(device_asset_id("video.mp4", 0), "video.mp4-0");
    assert_eq!(
        device_asset_id("x", u64::MAX),
        "x-18446744073709551615"
    );
}

#[test]
fn device_asset_id_deterministic_and_distinguishing() {
    // Identical (name, size) pairs give identical identifiers.
    assert_eq!(device_asset_id("a.jpg", 42), device_asset_id("a.jpg", 42));
    // A different name or a different size gives a different identifier.
    assert_ne!(device_asset_id("a.jpg", 42), device_asset_id("b.jpg", 42));
    assert_ne!(device_asset_id("a.jpg", 42), device_asset_id("a.jpg", 43));
    // Even names that end in digits and dashes cannot collide.
    assert_ne!(device_asset_id("a-1", 2), device_asset_id("a", 12));
    assert_ne!(device_asset_id("a-1-2", 3), device_asset_id("a-1", 23));
}

#[test]
fn classify_2xx_is_success() {
    for status in [200u16, 201, 204, 299] {
        let oc = classify_response(
            "pic.jpg",
            &WireResult::Http {
                status,
                body: String::new(),
            },
        );
        assert_eq!(
            oc,
            UploadOutcome::Success {
                display_name: "pic.jpg".to_string()
            }
        );
    }
}

#[test]
fn classify_non_2xx_is_failure_with_status_and_body() {
    let wire = WireResult::Http {
        status: 401,
        body: "Unauthorized".to_string(),
    };
    assert!(!wire_is_ok(&wire));
    let oc = classify_response("pic.jpg", &wire);
    assert_eq!(
        oc,
        UploadOutcome::Failure {
            display_name: "pic.jpg".to_string(),
            error_detail: "Upload failed with status 401: Unauthorized".to_string(),
        }
    );
    for status in [199u16, 300, 404, 500] {
        let wire = WireResult::Http {
            status,
            body: "nope".to_string(),
        };
        assert!(!wire_is_ok(&wire));
        assert_eq!(
            failure_detail(&wire),
            format!("Upload failed with status {}: nope", status)
        );
    }
}

#[test]
fn classify_transport_error_keeps_its_detail() {
    let wire = WireResult::Transport {
        detail: "connection timed out".to_string(),
    };
    let oc = classify_response("clip.mov", &wire);
    assert_eq!(
        oc,
        UploadOutcome::Failure {
            display_name: "clip.mov".to_string(),
            error_detail: "connection timed out".to_string(),
        }
    );
}

#[test]
fn task_failure_detail_wraps_message() {
    assert_eq!(
        task_failure_detail("worker cancelled"),
        "Task execution failed: worker cancelled"
    );
}

#[test]
fn upload_form_fields() {
    let head = [0xFFu8, 0xD8, 0xFF, 0xAA];
    let form = build_upload_form(
        "http://immich.local/",
        "test-api-key",
        "a.jpg",
        1234,
        0,
        1_500_000_000_123,
        &head,
    )
    .unwrap();
    assert_eq!(form.url, "http://immich.local/api/assets");
    assert_eq!(form.api_key, "test-api-key");
    assert_eq!(form.device_asset_id, "a.jpg-1234");
    assert_eq!(form.device_id, "rimmich-desktop");
    assert_eq!(form.file_created_at, "1970-01-01T00:00:00.000Z");
    assert_eq!(form.file_modified_at, "2017-07-14T02:40:00.123Z");
    assert_eq!(form.is_favorite, "false");
    assert_eq!(form.is_read_only, "false");
    assert_eq!(form.filename, "a.jpg");
    assert_eq!(form.content_type, "image/jpeg");
}

#[test]
fn upload_form_rejects_unrepresentable_timestamp() {
    let head = [0u8; 4];
    assert!(build_upload_form("http://x", "k", "f", 1, i64::MIN, 0, &head).is_none());
    assert!(build_upload_form("http://x", "k", "f", 1, 0, i64::MIN, &head).is_none());
}

#[test]
fn numbers_render_in_decimal() {
    assert_eq!(rimmich::u64_to_string(0), "0");
    assert_eq!(rimmich::u64_to_string(7), "7");
    assert_eq!(rimmich::u64_to_string(10), "10");
    assert_eq!(rimmich::u64_to_string(409), "409");
    assert_eq!(
        rimmich::u64_to_string(18446744073709551615),
        "18446744073709551615"
    );
}
