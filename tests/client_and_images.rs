use rig_libsql::image::{decoded_image, ImageGenerationData, ImageGenerationError, ImageGenerationModel, ImageGenerationResponse};
use rig_libsql::mcp::McpClientBuilder;

#[test]
fn test_mcp_client_builder() {
    let builder = McpClientBuilder::new("http://localhost:3000")
        .client_name("test-client")
        .client_version("0.1.0");

    assert_eq!(builder.uri, "http://localhost:3000");
    assert_eq!(builder.client_name, "test-client");
    assert_eq!(builder.client_version, "0.1.0");
}

#[test]
fn mcp_builder_defaults() {
    let builder = McpClientBuilder::new("http://example.test");
    assert_eq!(builder.uri, "http://example.test");
    assert_eq!(builder.client_name, "rig-client");
    assert_eq!(builder.client_version, "0.1.0");
}

#[test]
fn image_model_keeps_its_name() {
    let m = ImageGenerationModel::new("black-forest-labs/FLUX.1-schnell");
    assert_eq!(m.model, "black-forest-labs/FLUX.1-schnell");
}

#[test]
fn image_is_decoded_from_base64() {
    let reply = ImageGenerationResponse {
        created: 1,
        data: vec![
            ImageGenerationData { b64_json: "aGVsbG8=".to_string() },
            ImageGenerationData { b64_json: "d29ybGQ=".to_string() },
        ],
    };
    assert_eq!(reply.image(), Ok(b"hello".to_vec()));
}

#[test]
fn invalid_base64_is_a_response_error() {
    let reply = ImageGenerationResponse {
        created: 1,
        data: vec![ImageGenerationData { b64_json: "not base64!".to_string() }],
    };
    match reply.image() {
        Err(ImageGenerationError::ResponseError(msg)) => assert!(msg.starts_with("Failed to decode b64: ")),
        other => panic!("unexpected {:?}", other),
    }
}

#[test]
fn decoded_image_prefixes_the_reason() {
    assert_eq!(
        decoded_image(Err("bad".to_string())),
        Err(ImageGenerationError::ResponseError("Failed to decode b64: bad".to_string()))
    );
    assert_eq!(decoded_image(Ok(vec![1, 2])), Ok(vec![1, 2]));
}
