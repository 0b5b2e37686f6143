use phanerite::assets::{collect_fonts, AssetError, Assets, DECOMPRESSED_LIMIT, FONT_PATHS};

#[test]
fn plain_assets_are_served_as_found() {
    assert_eq!(Assets.load("", Some(vec![1, 2, 3])), Ok(None));
    assert_eq!(Assets.load("icons/play.svg", Some(b"<svg/>".to_vec())), Ok(Some(b"<svg/>".to_vec())));
    assert_eq!(
        Assets.load("icons/missing.svg", None),
        Err(AssetError::NotFound("icons/missing.svg".to_owned()))
    );
    assert_eq!(
        AssetError::NotFound("icons/missing.svg".to_owned()).message(),
        "could not find asset at path \"icons/missing.svg\""
    );
    assert_eq!(Assets.load("fonts/missing.ttf.zst", None), Err(AssetError::NotFound("fonts/missing.ttf.zst".to_owned())));
}

#[test]
fn compressed_assets_are_unpacked() {
    let original: Vec<u8> = b"a bundled typeface, many times over. ".repeat(64);
    let packed = zstd::bulk::compress(&original, 3).unwrap();
    assert_ne!(packed, original);
    assert_eq!(Assets.load("fonts/AdwaitaMono-Regular.ttf.zst", Some(packed.clone())), Ok(Some(original.clone())));
    // The same bytes under a plain name are served untouched.
    assert_eq!(Assets.load("fonts/AdwaitaMono-Regular.ttf", Some(packed.clone())), Ok(Some(packed)));
    let expected = zstd::bulk::decompress(&[1, 2, 3, 4], DECOMPRESSED_LIMIT).unwrap_err().to_string();
    assert_eq!(Assets.load("fonts/broken.zst", Some(vec![1, 2, 3, 4])), Err(AssetError::Corrupt(expected.clone())));
    assert_eq!(AssetError::Corrupt(expected.clone()).message(), expected);
    assert_eq!(DECOMPRESSED_LIMIT, 64 * 1024 * 1024);
}

#[test]
fn listings_add_the_bundled_names_under_the_path() {
    let bundled = vec!["icons/play.svg".to_owned(), "fonts/a.ttf.zst".to_owned(), "icons/copy.svg".to_owned()];
    assert_eq!(
        Assets.list("icons/", vec!["icons/toolkit.svg".to_owned()], &bundled),
        vec!["icons/toolkit.svg", "icons/play.svg", "icons/copy.svg"]
    );
    assert_eq!(Assets.list("", Vec::new(), &bundled), bundled);
    assert!(Assets.list("sounds/", Vec::new(), &bundled).is_empty());
}

#[test]
fn fonts_are_collected_in_order_or_the_first_missing_is_named() {
    assert_eq!(FONT_PATHS, ["fonts/SarasaAdwaitaUiSC-Regular.ttf.zst", "fonts/AdwaitaMono-Regular.ttf.zst"]);
    assert_eq!(collect_fonts(vec![Some(vec![1]), Some(vec![2])]), Ok(vec![vec![1], vec![2]]));
    assert_eq!(
        collect_fonts(vec![Some(vec![1]), None]),
        Err("bundled font is missing: fonts/AdwaitaMono-Regular.ttf.zst".to_owned())
    );
    assert_eq!(
        collect_fonts(vec![None, None]),
        Err("bundled font is missing: fonts/SarasaAdwaitaUiSC-Regular.ttf.zst".to_owned())
    );
}
