use reestream::server::overlays::{BrandPatch, CaptionPatch, TickerPatch, add_record, patch_record};
use reestream::server::records::remove_keyed;
use reestream::server::restream::{Brand, Caption, Ticker};
use reestream::server::studio::{BrandRequest, CaptionRequest, brand_from_value, caption_from_value};

fn no_brand_change() -> BrandPatch {
    BrandPatch {
        id: None,
        name: None,
        logo_url: None,
        primary_color: None,
        secondary_color: None,
        font_family: None,
        created_at: None,
    }
}

#[test]
fn brands_are_added_patched_and_removed() {
    let mut brands: Vec<Brand> = Vec::new();
    let request = BrandRequest { name: Some("Main".into()), logo_url: None, primary_color: None, secondary_color: None, font_family: None };
    let added = add_record(&mut brands, brand_from_value(request), "b1".to_string(), 5);
    assert_eq!(added.id, "b1");
    assert_eq!((added.created_at, added.updated_at), (5, 5));
    assert_eq!(added.primary_color, "#ffffff");
    assert_eq!(brands.len(), 1);

    let mut patch = no_brand_change();
    patch.name = Some("Renamed".into());
    patch.logo_url = Some(Some("https://cdn.example/logo.png".into()));
    let patched = patch_record(&mut brands, "b1", patch, 9).unwrap();
    assert_eq!(patched.name, "Renamed");
    assert_eq!(patched.logo_url.as_deref(), Some("https://cdn.example/logo.png"));
    assert_eq!((patched.created_at, patched.updated_at), (5, 9));
    assert_eq!(brands[0].name, "Renamed");

    assert!(patch_record(&mut brands, "missing", no_brand_change(), 10).is_none());
    assert_eq!(brands[0].updated_at, 9);

    assert!(remove_keyed(&mut brands, "b1"));
    assert!(brands.is_empty());
    assert!(!remove_keyed(&mut brands, "b1"));
}

#[test]
fn captions_default_and_patch() {
    let c = caption_from_value(CaptionRequest { name: None, language: None, style: None, enabled: None });
    assert_eq!(c.name, "Captions");
    assert_eq!(c.language, "en");
    assert_eq!(c.style, "{}");
    assert!(c.enabled);
    let mut captions: Vec<Caption> = Vec::new();
    add_record(&mut captions, c, "c1".to_string(), 1);
    let patch = CaptionPatch {
        id: None,
        name: None,
        language: Some("de".into()),
        style: None,
        enabled: Some(false),
        created_at: None,
    };
    let p = patch_record(&mut captions, "c1", patch, 2).unwrap();
    assert_eq!(p.language, "de");
    assert!(!p.enabled);
    assert_eq!(p.name, "Captions");
}

#[test]
fn patching_one_ticker_leaves_the_others() {
    let ticker = |text: &str| Ticker {
        id: String::new(),
        text: text.into(),
        speed: 40,
        color: "#ffffff".into(),
        background_color: "#000000".into(),
        enabled: true,
        order: 0,
        created_at: 0,
        updated_at: 0,
    };
    let mut tickers: Vec<Ticker> = Vec::new();
    add_record(&mut tickers, ticker("a"), "t1".to_string(), 1);
    add_record(&mut tickers, ticker("b"), "t2".to_string(), 2);
    let patch = TickerPatch {
        id: None,
        text: None,
        speed: Some(80),
        color: None,
        background_color: None,
        enabled: None,
        order: None,
        created_at: None,
    };
    patch_record(&mut tickers, "t2", patch, 3).unwrap();
    assert_eq!(tickers[0].speed, 40);
    assert_eq!(tickers[0].updated_at, 1);
    assert_eq!(tickers[1].speed, 80);
    assert_eq!(tickers[1].updated_at, 3);
}
