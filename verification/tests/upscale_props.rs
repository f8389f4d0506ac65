use media_compress::error::Error;
use media_compress::upscale::{parse_upscale_response, prepare_upscale_request};

fn body_with(field: &str) -> String {
    let mut body = String::new();
    body.push_str("{\"candidates\":[{\"content\":{\"parts\":[{\"");
    body.push_str(field);
    body.push_str("\":{\"mime_type\":\"image/png\",\"data\":\"aGVsbG8=\"}}]}}]}");
    body
}

#[test]
fn both_inline_spellings_extract_identically() {
    let snake = parse_upscale_response(200, &body_with("inline_data")).unwrap();
    let camel = parse_upscale_response(200, &body_with("inlineData")).unwrap();
    assert_eq!(snake, camel);
    assert_eq!(snake, b"hello".to_vec());
}

#[test]
fn text_parts_are_skipped_until_the_inline_part() {
    let body = "{\"candidates\":[{\"content\":{\"parts\":[{\"text\":\"done\"},\
                {\"inline_data\":{\"data\":\"aGVsbG8=\"}}]}}]}";
    let out = parse_upscale_response(200, body).unwrap();
    assert_eq!(out, b"hello".to_vec());
}

#[test]
fn non_success_status_is_an_api_error_with_status_and_body() {
    let r = parse_upscale_response(429, "{\"error\":\"rate limited\"}");
    match r {
        Err(Error::ApiError { status, body }) => {
            assert_eq!(status, 429);
            assert!(body.contains("{\"error\":\"rate limited\"}"));
        }
        other => panic!("expected an api error, got {:?}", other),
    }
}

#[test]
fn missing_candidates_is_named() {
    let r = parse_upscale_response(200, "{\"notCandidates\":[]}");
    match r {
        Err(Error::MalformedResponse { segment, body }) => {
            assert_eq!(segment, "candidates");
            assert_eq!(body, "{\"notCandidates\":[]}");
        }
        other => panic!("expected a malformed response, got {:?}", other),
    }
}

#[test]
fn each_missing_level_is_named() {
    let cases: Vec<(&str, &str)> = vec![
        ("not json at all", "body"),
        ("{\"candidates\":[]}", "candidates[0]"),
        ("{\"candidates\":\"no\"}", "candidates[0]"),
        ("{\"candidates\":[{\"noContent\":1}]}", "content"),
        ("{\"candidates\":[{\"content\":{}}]}", "parts"),
        ("{\"candidates\":[{\"content\":{\"parts\":7}}]}", "parts"),
        ("{\"candidates\":[{\"content\":{\"parts\":[{\"text\":\"x\"}]}}]}", "inline_data"),
        ("{\"candidates\":[{\"content\":{\"parts\":[{\"inline_data\":{}}]}}]}", "data"),
        ("{\"candidates\":[{\"content\":{\"parts\":[{\"inlineData\":{\"data\":5}}]}}]}", "data"),
    ];
    for (body, expected_segment) in cases {
        match parse_upscale_response(200, body) {
            Err(Error::MalformedResponse { segment, body: kept }) => {
                assert_eq!(segment, expected_segment, "for body {}", body);
                assert_eq!(kept, body);
            }
            other => panic!("expected a malformed response for {}, got {:?}", body, other),
        }
    }
}

#[test]
fn invalid_base64_payload_is_a_base64_error() {
    let body = "{\"candidates\":[{\"content\":{\"parts\":[{\"inline_data\":{\"data\":\"!!!\"}}]}}]}";
    assert!(matches!(parse_upscale_response(200, body), Err(Error::Base64Error)));
}

#[test]
fn request_embeds_the_png_reencoding_as_base64() {
    let img = image::RgbImage::from_pixel(1, 1, image::Rgb([0, 128, 255]));
    let mut png: Vec<u8> = Vec::new();
    image::DynamicImage::ImageRgb8(img)
        .write_to(&mut std::io::Cursor::new(&mut png), image::ImageFormat::Png)
        .unwrap();

    let req = prepare_upscale_request(&png).unwrap();
    assert_eq!(req.mime_type, "image/png");
    assert_eq!(req.image_size, "2K");
    assert_eq!(req.prompt, "Upscale this image.");

    let payload = base64::Engine::decode(
        &base64::engine::general_purpose::STANDARD,
        req.data.as_bytes(),
    )
    .unwrap();
    assert_eq!(&payload[0..4], &[0x89, 0x50, 0x4e, 0x47]);
    let decoded = image::load_from_memory(&payload).unwrap().to_rgb8();
    assert_eq!(decoded.get_pixel(0, 0).0, [0, 128, 255]);
}

#[test]
fn undecodable_upscale_input_is_a_decode_error() {
    let garbage: Vec<u8> = vec![1, 2, 3];
    assert!(matches!(prepare_upscale_request(&garbage), Err(Error::DecodeError)));
}
