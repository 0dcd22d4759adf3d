use computemodule::model::{Classification, Job};
use computemodule::worker::{
    FetchDisposition, FetchError, PostOutcome, WorkerStep, classify_fetch_status,
    classify_post_status, detect_fraud, run_iteration,
};

fn encode_png(img: &image::RgbaImage) -> String {
    let mut cur = std::io::Cursor::new(Vec::new());
    img.write_to(&mut cur, image::ImageOutputFormat::Png).unwrap();
    base64::Engine::encode(&base64::engine::general_purpose::STANDARD, cur.into_inner())
}

#[test]
fn only_status_200_hands_over_a_body() {
    assert_eq!(classify_fetch_status(200), FetchDisposition::UseBody);
    assert_eq!(classify_fetch_status(204), FetchDisposition::RetryNow);
    assert_eq!(classify_fetch_status(500), FetchDisposition::RetryNow);
    assert_eq!(classify_fetch_status(404), FetchDisposition::RetryNow);
}

#[test]
fn only_status_204_acknowledges_a_post() {
    assert_eq!(classify_post_status(204), PostOutcome::Delivered);
    assert_eq!(classify_post_status(200), PostOutcome::Dropped);
    assert_eq!(classify_post_status(500), PostOutcome::Dropped);
}

#[test]
fn scenario_fetch_failure_backs_off_one_second() {
    let step = run_iteration(Err(FetchError::Transport(String::from("connection refused"))));
    match step {
        WorkerStep::Backoff { seconds } => assert_eq!(seconds, 1),
        WorkerStep::Post { .. } => panic!("a failed fetch must not post"),
    }
}

#[test]
fn malformed_body_error_also_backs_off() {
    let step = run_iteration(Err(FetchError::Deserialization(String::from("bad json"))));
    match step {
        WorkerStep::Backoff { seconds } => assert_eq!(seconds, 1),
        WorkerStep::Post { .. } => panic!("a failed fetch must not post"),
    }
}

#[test]
fn every_fetched_job_yields_one_post() {
    let job = Job {
        id: String::from("job-7"),
        query_type: String::from("forgery"),
        enc_img_in: String::from("%%% not base64 %%%"),
    };
    let step = run_iteration(Ok(job));
    match step {
        WorkerStep::Post { job_id, result } => {
            assert_eq!(job_id, "job-7");
            assert_eq!(result.result, Classification::Failed);
            assert_eq!(result.text, "Failed to deserialize base64 enc image");
            assert_eq!(result.enc_img_out, "");
        },
        WorkerStep::Backoff { .. } => panic!("a fetched job must be posted"),
    }
}

#[test]
fn bad_base64_fails_with_decode_message() {
    let q = detect_fraud("!!!!");
    assert_eq!(q.result, Classification::Failed);
    assert_eq!(q.text, "Failed to deserialize base64 enc image");
    assert_eq!(q.enc_img_out, "");
}

#[test]
fn scenario_corrupt_image_fails_with_load_message() {
    let enc =
        base64::Engine::encode(&base64::engine::general_purpose::STANDARD, [1u8, 2, 3, 4]);
    let q = detect_fraud(&enc);
    assert_eq!(q.result, Classification::Failed);
    assert_eq!(q.text, "failed to load image");
    assert_eq!(q.enc_img_out, "");
}

#[test]
fn tiny_image_is_unsupported() {
    let img = image::RgbaImage::from_pixel(4, 4, image::Rgba([10u8, 20, 30, 255]));
    let q = detect_fraud(&encode_png(&img));
    assert_eq!(q.result, Classification::Failed);
    assert_eq!(q.text, "image dimensions unsupported by the detector");
    assert_eq!(q.enc_img_out, "");
}

#[test]
fn uniform_png_runs_the_real_detector() {
    let img = image::RgbaImage::from_pixel(64, 64, image::Rgba([128u8, 128, 128, 255]));
    let enc = encode_png(&img);
    let q = detect_fraud(&enc);
    // A flat PNG carries no JPEG grid, so the detector finds no main grid and
    // the secondary missing-grid analysis is unavailable.
    assert_eq!(q.result, Classification::Failed);
    assert_eq!(q.text, "missing grid analysis unavailable");
    assert_eq!(q.enc_img_out, "");
}
