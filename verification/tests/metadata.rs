use imagelink::metadata::{date_priority, first_of, get_exif, link_name, too_small, DateField};

fn le16(v: &mut Vec<u8>, x: u16) {
    v.extend_from_slice(&x.to_le_bytes());
}

fn le32(v: &mut Vec<u8>, x: u32) {
    v.extend_from_slice(&x.to_le_bytes());
}

fn entry(v: &mut Vec<u8>, tag: u16, typ: u16, count: u32, value: u32) {
    le16(v, tag);
    le16(v, typ);
    le32(v, count);
    le32(v, value);
}

/// A minimal little-endian TIFF holding the given date strings: `changed`
/// under the plain DateTime tag of the first image directory, the other
/// two under the Exif sub-directory.
fn build_tiff(changed: Option<&str>, original: Option<&str>, digitized: Option<&str>) -> Vec<u8> {
    let n1 = original.is_some() as u32 + digitized.is_some() as u32;
    let n0 = changed.is_some() as u32 + (n1 > 0) as u32;
    let ifd0_off = 8u32;
    let ifd0_size = 2 + 12 * n0 + 4;
    let exif_off = ifd0_off + ifd0_size;
    let exif_size = if n1 > 0 { 2 + 12 * n1 + 4 } else { 0 };
    let data_off = exif_off + exif_size;

    let mut data: Vec<u8> = Vec::new();
    let mut v: Vec<u8> = vec![0x49, 0x49, 0x2a, 0x00];
    le32(&mut v, ifd0_off);

    le16(&mut v, n0 as u16);
    if let Some(s) = changed {
        entry(&mut v, 0x0132, 2, s.len() as u32 + 1, data_off + data.len() as u32);
        data.extend_from_slice(s.as_bytes());
        data.push(0);
    }
    if n1 > 0 {
        entry(&mut v, 0x8769, 4, 1, exif_off);
    }
    le32(&mut v, 0);

    if n1 > 0 {
        le16(&mut v, n1 as u16);
        if let Some(s) = original {
            entry(&mut v, 0x9003, 2, s.len() as u32 + 1, data_off + data.len() as u32);
            data.extend_from_slice(s.as_bytes());
            data.push(0);
        }
        if let Some(s) = digitized {
            entry(&mut v, 0x9004, 2, s.len() as u32 + 1, data_off + data.len() as u32);
            data.extend_from_slice(s.as_bytes());
            data.push(0);
        }
        le32(&mut v, 0);
    }

    assert_eq!(v.len() as u32, data_off);
    v.extend(data);
    v
}

#[test]
fn size_gate_sits_at_the_thumbnail_limit() {
    assert!(too_small(0));
    assert!(too_small(102399));
    assert!(!too_small(102400));
}

#[test]
fn a_small_file_is_rejected_before_decoding() {
    let bytes = build_tiff(Some("2019:05:09 14:22:13"), None, None);
    let r = get_exif("tiny.jpg", Some(512), &bytes);
    let e = r.err().expect("must be rejected");
    assert_eq!(e.message(), "file size (512) is too small (thumbnail?): 'tiny.jpg'");
}

#[test]
fn garbage_bytes_are_a_parse_error() {
    let bytes = vec![0u8; 64];
    let r = get_exif("bad.jpg", None, &bytes);
    let e = r.err().expect("must fail to decode");
    assert_eq!(e.message(), "Could not parse input file 'bad.jpg': Unknown image format");
}

#[test]
fn the_change_date_alone_names_the_link() {
    let bytes = build_tiff(Some("2019:05:09 14:22:13"), None, None);
    let exif = get_exif("pix/IMG 1.jpg", None, &bytes).expect("decodes");
    let targ = link_name(&exif, "pix/IMG 1.jpg", ".").expect("has a date");
    assert_eq!(targ, "./2019/05/09/14-22-13-IMG-1.jpg");
}

#[test]
fn the_original_date_beats_the_change_date() {
    let bytes = build_tiff(Some("2001:01:01 01:01:01"), Some("2002:02:02 02:02:02"), None);
    let exif = get_exif("a.jpg", None, &bytes).expect("decodes");
    let targ = link_name(&exif, "a.jpg", "/links").expect("has a date");
    assert_eq!(targ, "/links/2002/02/02/02-02-02-a.jpg");
}

#[test]
fn the_digitized_date_beats_both() {
    let bytes = build_tiff(
        Some("2001:01:01 01:01:01"),
        Some("2002:02:02 02:02:02"),
        Some("2003:03:03 03:03:03"),
    );
    let exif = get_exif("a.jpg", None, &bytes).expect("decodes");
    let targ = link_name(&exif, "a.jpg", ".").expect("has a date");
    assert_eq!(targ, "./2003/03/03/03-03-03-a.jpg");
}

#[test]
fn a_file_without_dates_reports_the_first_field() {
    let bytes = build_tiff(None, None, None);
    let exif = get_exif("no_date.jpg", None, &bytes).expect("decodes");
    let e = link_name(&exif, "no_date.jpg", ".").err().expect("no date field");
    assert_eq!(
        e.message(),
        "missing field in input file 'no_date.jpg': Date and time of digital data generation"
    );
}

#[test]
fn a_custom_priority_list_is_followed() {
    let bytes = build_tiff(Some("2001:01:01 01:01:01"), Some("2002:02:02 02:02:02"), None);
    let exif = get_exif("a.jpg", None, &bytes).expect("decodes");
    let tags = vec![DateField::Changed, DateField::Original];
    let value = first_of("a.jpg", &exif, &tags).expect("present");
    assert_eq!(value, "2001-01-01 01:01:01");
}

#[test]
fn the_default_priority_is_digitized_original_changed() {
    assert_eq!(
        date_priority(),
        vec![DateField::Digitized, DateField::Original, DateField::Changed]
    );
}
