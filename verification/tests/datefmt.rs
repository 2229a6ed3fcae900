use imagelink::datefmt::date_substitute;

#[test]
fn plain_timestamp_is_rewritten() {
    let r = date_substitute("2019-05-09 14:22:13");
    assert_eq!(r, "2019/05/09/14-22-13-");
}

#[test]
fn surrounding_text_is_kept() {
    let r = date_substitute("shot 2019-05-09 14:22:13 noon");
    assert_eq!(r, "shot 2019/05/09/14-22-13- noon");
}

#[test]
fn two_timestamps_are_both_rewritten() {
    let r = date_substitute("2019-05-09 14:22:13 and 2020-12-31 23:59:59");
    assert_eq!(r, "2019/05/09/14-22-13- and 2020/12/31/23-59-59-");
}

#[test]
fn short_date_is_left_alone() {
    let r = date_substitute("2019-5-9 14:22:13");
    assert_eq!(r, "2019-5-9 14:22:13");
}

#[test]
fn colon_separated_date_is_left_alone() {
    // The raw form a camera writes, before the metadata reader renders it.
    let r = date_substitute("2019:05:09 14:22:13");
    assert_eq!(r, "2019:05:09 14:22:13");
}

#[test]
fn empty_text_stays_empty() {
    assert_eq!(date_substitute(""), "");
}

#[test]
fn letters_in_digit_places_do_not_match() {
    let r = date_substitute("yyyy-mm-dd hh:mm:ss");
    assert_eq!(r, "yyyy-mm-dd hh:mm:ss");
}

#[test]
fn adjacent_timestamps_do_not_overlap() {
    let r = date_substitute("2019-05-09 14:22:132020-01-02 03:04:05");
    assert_eq!(r, "2019/05/09/14-22-13-2020/01/02/03-04-05-");
}

#[test]
fn non_ascii_text_is_kept() {
    let r = date_substitute("père 2019-05-09 14:22:13");
    assert_eq!(r, "père 2019/05/09/14-22-13-");
}
