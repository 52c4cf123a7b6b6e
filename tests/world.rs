use klirr::world::{
    hours_to_offset_seconds, loaded_font, CivilDate, Environment, Timestamp, TypstContext,
    VirtualSource, WorldError, DATA_PATH, L18N_PATH,
};

fn source(id: u16, text: &str) -> VirtualSource {
    VirtualSource {
        id,
        text: text.to_string(),
    }
}

// 2023-11-14T22:13:20Z
const INSTANT: i64 = 1_700_000_000;

fn context(ids: [u16; 3], offset_seconds: i32) -> TypstContext<&'static str> {
    TypstContext::new(
        source(ids[0], "layout"),
        source(ids[1], "labels"),
        source(ids[2], "data"),
        Environment {
            fonts: vec!["regular", "bold"],
            now: Timestamp {
                utc_seconds: INSTANT,
                offset_seconds,
            },
        },
    )
}

fn date(year: i32, month: u8, day: u8) -> CivilDate {
    CivilDate { year, month, day }
}

#[test]
fn each_identity_resolves_to_its_source() {
    let ctx = context([1, 2, 3], 0);
    assert_eq!(ctx.main(), 1);
    assert_eq!(ctx.source(1).text, "layout");
    assert_eq!(ctx.source(2).text, "labels");
    assert_eq!(ctx.source(3).text, "data");
}

#[test]
fn unknown_identity_is_a_contract_breach() {
    let ctx = context([1, 2, 3], 0);
    assert!(ctx.resolves(1) && ctx.resolves(2) && ctx.resolves(3));
    assert!(!ctx.resolves(9));
    assert!(!ctx.resolves(0));
}

#[test]
fn binary_files_are_never_served() {
    let ctx = context([1, 2, 3], 0);
    assert_eq!(ctx.file(1).unwrap_err(), WorldError::BinaryUnsupported(1));
}

#[test]
fn fonts_by_index() {
    let ctx = context([1, 2, 3], 0);
    assert_eq!(ctx.font_count(), 2);
    assert_eq!(*ctx.font(0), "regular");
    assert_eq!(*ctx.font(1), "bold");
    assert_eq!(loaded_font(0, Some(7)), Ok(7));
    assert_eq!(loaded_font::<u8>(4, None), Err(WorldError::FontUnloadable(4)));
}

#[test]
fn today_at_the_captured_offset() {
    assert_eq!(context([1, 2, 3], 0).today(None), Some(date(2023, 11, 14)));
    assert_eq!(context([1, 2, 3], 7200).today(None), Some(date(2023, 11, 15)));
}

#[test]
fn today_at_a_requested_offset() {
    let ctx = context([1, 2, 3], 0);
    assert_eq!(ctx.today(Some(0)), Some(date(2023, 11, 14)));
    assert_eq!(ctx.today(Some(2)), Some(date(2023, 11, 15)));
    assert_eq!(ctx.today(Some(-23)), Some(date(2023, 11, 13)));
    assert_eq!(ctx.today(Some(23)), Some(date(2023, 11, 15)));
    for h in -23..=23 {
        assert!(ctx.today(Some(h)).is_some(), "offset {}", h);
    }
}

#[test]
fn today_with_an_unrepresentable_offset_is_unavailable() {
    let ctx = context([1, 2, 3], 0);
    assert_eq!(ctx.today(Some(i32::MAX as i64)), None);
    assert_eq!(ctx.today(Some(i64::MAX)), None);
    assert_eq!(ctx.today(Some(i64::MIN)), None);
    assert_eq!(ctx.today(Some(24)), None);
    assert_eq!(ctx.today(Some(-24)), None);
}

#[test]
fn hours_convert_to_seconds_within_range() {
    assert_eq!(hours_to_offset_seconds(2), Some(7200));
    assert_eq!(hours_to_offset_seconds(-596523), Some(-2_147_482_800));
    assert_eq!(hours_to_offset_seconds(596524), None);
    assert_eq!(hours_to_offset_seconds(i32::MAX as i64), None);
}

#[test]
fn independent_contexts_do_not_share_state() {
    let first = context([1, 2, 3], 0);
    let second = TypstContext::new(
        source(4, "other layout"),
        source(5, "other labels"),
        source(6, "other data"),
        Environment {
            fonts: vec!["mono"],
            now: Timestamp {
                utc_seconds: 0,
                offset_seconds: 0,
            },
        },
    );
    assert_eq!(first.source(1).text, "layout");
    assert_eq!(second.source(4).text, "other layout");
    assert!(!second.resolves(1));
    assert!(!first.resolves(4));
    assert_eq!(first.today(None), Some(date(2023, 11, 14)));
    assert_eq!(second.today(None), Some(date(1970, 1, 1)));
    assert_eq!(*first.font(1), "bold");
    assert_eq!(second.font_count(), 1);
}

#[test]
fn captured_instant_has_an_offset_within_a_day() {
    let env = Environment::new(vec!["regular"]);
    assert!(env.now.offset_seconds.abs() < 86_400);
    assert_eq!(env.fonts, vec!["regular"]);
}

#[test]
fn virtual_paths_match_the_layout_imports() {
    assert_eq!(L18N_PATH, "/crates/render/src/l18n.typ");
    assert_eq!(DATA_PATH, "/crates/render/src/input.typ");
}
