use trix_player::meta::{shown, tag_kind, TagKind, TrackMeta};

#[test]
fn empty_meta_knows_nothing() {
    let meta = TrackMeta::empty();
    assert_eq!(meta.title, None);
    assert_eq!(meta.artist, None);
    assert_eq!(meta.album, None);
    assert_eq!(meta.duration_ns, None);
}

#[test]
fn standard_key_decides_first() {
    assert_eq!(tag_kind(TagKind::Title, "TIT2"), TagKind::Title);
    assert_eq!(tag_kind(TagKind::Artist, "album"), TagKind::Artist);
    assert_eq!(tag_kind(TagKind::Album, "title"), TagKind::Album);
}

#[test]
fn raw_key_decides_where_the_standard_key_says_nothing() {
    assert_eq!(tag_kind(TagKind::Other, "title"), TagKind::Title);
    assert_eq!(tag_kind(TagKind::Other, "TITLE"), TagKind::Title);
    assert_eq!(tag_kind(TagKind::Other, "Artist"), TagKind::Artist);
    assert_eq!(tag_kind(TagKind::Other, "aLbUm"), TagKind::Album);
    assert_eq!(tag_kind(TagKind::Other, "genre"), TagKind::Other);
    assert_eq!(tag_kind(TagKind::Other, ""), TagKind::Other);
    assert_eq!(tag_kind(TagKind::Other, "title "), TagKind::Other);
    assert_eq!(tag_kind(TagKind::Other, "albumartist"), TagKind::Other);
}

#[test]
fn first_value_of_a_field_stays() {
    let mut meta = TrackMeta::empty();
    meta.apply_tag(TagKind::Title, "First".to_string());
    meta.apply_tag(TagKind::Title, "Second".to_string());
    meta.apply_tag(TagKind::Artist, "Someone".to_string());
    meta.apply_tag(TagKind::Other, "Rock".to_string());
    meta.apply_tag(TagKind::Album, "Record".to_string());
    meta.apply_tag(TagKind::Album, "Other record".to_string());
    assert_eq!(meta.title.as_deref(), Some("First"));
    assert_eq!(meta.artist.as_deref(), Some("Someone"));
    assert_eq!(meta.album.as_deref(), Some("Record"));
    assert_eq!(meta.duration_ns, None);
}

#[test]
fn probed_duration_fills_a_gap_only() {
    let mut meta = TrackMeta::empty();
    meta.fill_duration(None);
    assert_eq!(meta.duration_ns, None);
    meta.fill_duration(Some(5_000));
    assert_eq!(meta.duration_ns, Some(5_000));
    meta.fill_duration(Some(9_000));
    assert_eq!(meta.duration_ns, Some(5_000));
    meta.fill_duration(None);
    assert_eq!(meta.duration_ns, Some(5_000));
}

#[test]
fn blank_fields_fall_back() {
    assert_eq!(shown(&Some("Song".to_string()), "file.mp3"), "Song");
    assert_eq!(shown(&Some("  Song ".to_string()), "file.mp3"), "  Song ");
    assert_eq!(shown(&Some("".to_string()), "file.mp3"), "file.mp3");
    assert_eq!(shown(&Some(" \t\u{3000}".to_string()), "-"), "-");
    assert_eq!(shown(&None, "-"), "-");
    assert_eq!(shown(&None, ""), "");
}
