use photo_book::corpus::SourceImage;
use photo_book::corpus::build_corpus;
use photo_book::corpus::sort_corpus;
use photo_book::errors::PipelineError;
use photo_book::metadata::extract_capture_time;
use photo_book::timestamp::Timestamp;

fn exif_tiff(datetime: &str) -> Vec<u8> {
    let field = exif::Field {
        tag: exif::Tag::DateTimeOriginal,
        ifd_num: exif::In::PRIMARY,
        value: exif::Value::Ascii(vec![datetime.as_bytes().to_vec()]),
    };
    let mut writer = exif::experimental::Writer::new();
    let mut buf = std::io::Cursor::new(Vec::new());
    writer.push_field(&field);
    writer.write(&mut buf, false).unwrap();
    buf.into_inner()
}

fn plain_jpeg(w: u32, h: u32, px: [u8; 3]) -> Vec<u8> {
    let img = image::RgbImage::from_pixel(w, h, image::Rgb(px));
    let mut out = Vec::new();
    let mut enc = image::codecs::jpeg::JpegEncoder::new(&mut out);
    enc.encode(img.as_raw(), w, h, image::ColorType::Rgb8).unwrap();
    out
}

/// A JPEG with an Exif APP1 segment carrying the given capture time,
/// spliced in right after the start-of-image marker.
fn jpeg_with_time(datetime: &str, px: [u8; 3]) -> Vec<u8> {
    let base = plain_jpeg(32, 48, px);
    let tiff = exif_tiff(datetime);
    let mut payload = Vec::new();
    payload.extend_from_slice(b"Exif\0\0");
    payload.extend_from_slice(&tiff);
    let seg_len = (payload.len() + 2) as u16;
    let mut out = Vec::new();
    out.extend_from_slice(&base[0..2]);
    out.push(0xff);
    out.push(0xe1);
    out.push((seg_len >> 8) as u8);
    out.push((seg_len & 0xff) as u8);
    out.extend_from_slice(&payload);
    out.extend_from_slice(&base[2..]);
    out
}

fn ts(year: i32, month: u32, day: u32, hour: u32, minute: u32, second: u32) -> Timestamp {
    Timestamp { year, month, day, hour, minute, second }
}

#[test]
fn extract_reads_capture_time() {
    let bytes = jpeg_with_time("2020:01:02 10:00:00", [10, 200, 30]);
    assert_eq!(extract_capture_time(&bytes), Ok(ts(2020, 1, 2, 10, 0, 0)));
}

#[test]
fn extract_fails_without_field() {
    let bytes = plain_jpeg(32, 48, [10, 200, 30]);
    assert_eq!(extract_capture_time(&bytes), Err(PipelineError::Metadata));
}

#[test]
fn extract_fails_on_non_image_bytes() {
    let bytes: Vec<u8> = vec![0, 1, 2, 3];
    assert_eq!(extract_capture_time(&bytes), Err(PipelineError::Metadata));
}

#[test]
fn extract_fails_on_blank_capture_time() {
    let bytes = jpeg_with_time("    :  :     :  :  ", [10, 200, 30]);
    assert_eq!(extract_capture_time(&bytes), Err(PipelineError::Metadata));
}

#[test]
fn corpus_collects_all_records_in_input_order() {
    let files = vec![
        SourceImage {
            path: "a.jpg".to_string(),
            bytes: jpeg_with_time("2020:01:02 10:00:00", [1, 2, 3]),
        },
        SourceImage {
            path: "b.jpg".to_string(),
            bytes: jpeg_with_time("2020:01:01 09:00:00", [4, 5, 6]),
        },
    ];
    let recs = build_corpus(&files).unwrap();
    assert_eq!(recs.len(), 2);
    assert_eq!(recs[0].path, "a.jpg");
    assert_eq!(recs[0].taken, ts(2020, 1, 2, 10, 0, 0));
    assert_eq!(recs[1].path, "b.jpg");
    assert_eq!(recs[1].taken, ts(2020, 1, 1, 9, 0, 0));
}

#[test]
fn one_bad_file_fails_the_whole_corpus() {
    let files = vec![
        SourceImage {
            path: "good.jpg".to_string(),
            bytes: jpeg_with_time("2020:01:02 10:00:00", [1, 2, 3]),
        },
        SourceImage { path: "bad.jpg".to_string(), bytes: plain_jpeg(32, 48, [1, 2, 3]) },
    ];
    assert_eq!(build_corpus(&files).unwrap_err(), PipelineError::Metadata);
}

#[test]
fn empty_corpus_is_allowed() {
    let files: Vec<SourceImage> = Vec::new();
    assert_eq!(build_corpus(&files).unwrap().len(), 0);
}

#[test]
fn sort_orders_three_capture_times() {
    let files = vec![
        SourceImage {
            path: "first-scanned.jpg".to_string(),
            bytes: jpeg_with_time("2020:01:02 10:00:00", [1, 2, 3]),
        },
        SourceImage {
            path: "second-scanned.jpg".to_string(),
            bytes: jpeg_with_time("2020:01:01 09:00:00", [4, 5, 6]),
        },
        SourceImage {
            path: "third-scanned.jpg".to_string(),
            bytes: jpeg_with_time("2020:01:03 11:00:00", [7, 8, 9]),
        },
    ];
    let mut recs = build_corpus(&files).unwrap();
    sort_corpus(&mut recs);
    assert_eq!(recs[0].path, "second-scanned.jpg");
    assert_eq!(recs[1].path, "first-scanned.jpg");
    assert_eq!(recs[2].path, "third-scanned.jpg");
}

#[test]
fn sort_keeps_tied_records_in_scan_order() {
    let files = vec![
        SourceImage {
            path: "late.jpg".to_string(),
            bytes: jpeg_with_time("2021:06:07 08:09:10", [1, 2, 3]),
        },
        SourceImage {
            path: "tie-one.jpg".to_string(),
            bytes: jpeg_with_time("2020:05:05 05:05:05", [4, 5, 6]),
        },
        SourceImage {
            path: "tie-two.jpg".to_string(),
            bytes: jpeg_with_time("2020:05:05 05:05:05", [7, 8, 9]),
        },
    ];
    let mut recs = build_corpus(&files).unwrap();
    sort_corpus(&mut recs);
    assert_eq!(recs[0].path, "tie-one.jpg");
    assert_eq!(recs[1].path, "tie-two.jpg");
    assert_eq!(recs[2].path, "late.jpg");
}
