//! The resolution contract that the Typst compiler relies on during a render:
//! which source is the main document, the text of a source by its identity,
//! fonts by index, and today's date under an optional fixed offset.
//!
//! A context is built once per render and only read afterwards; every query
//! takes `&self`, so independent renders share nothing mutable.

use vstd::prelude::*;

verus! {

/// The virtual path under which the layout imports the localised labels.
pub const L18N_PATH: &'static str = "/crates/render/src/l18n.typ";

/// The virtual path under which the layout imports the invoice data.
pub const DATA_PATH: &'static str = "/crates/render/src/input.typ";

/// A program text under a stable logical identity.
#[derive(Clone, Debug)]
pub struct VirtualSource {
    pub id: u16,
    pub text: String,
}

/// The three program texts of one render.
pub struct Content {
    pub layout: VirtualSource,
    pub l18n: VirtualSource,
    pub data: VirtualSource,
}

/// An instant, as seconds since the Unix epoch in UTC, together with the
/// offset east of UTC, in seconds, of the zone where it was taken.
#[derive(Clone, Copy, Debug)]
pub struct Timestamp {
    pub utc_seconds: i64,
    pub offset_seconds: i32,
}

impl Timestamp {
    /// The offset is less than a day either way.
    pub open spec fn well_formed(self) -> bool {
        -86400 < self.offset_seconds < 86400
    }
}

/// Relies on `chrono::Local::now`, `DateTime::timestamp` and
/// `FixedOffset::local_minus_utc`: the current instant and the machine's current
/// offset, which `chrono` keeps within a day.
#[verifier::external_body]
fn local_now() -> (r: Timestamp)
    ensures
        r.well_formed(),
{
    let now = chrono::Local::now();
    Timestamp {
        utc_seconds: now.timestamp(),
        offset_seconds: chrono::Offset::fix(now.offset()).local_minus_utc(),
    }
}

/// A calendar date.
#[derive(Clone, Copy, Debug, PartialEq, Eq, Structural)]
pub struct CivilDate {
    pub year: i32,
    pub month: u8,
    pub day: u8,
}

/// What `chrono` gives as year, month and day for an instant seen at a fixed
/// offset, or `None` where it cannot represent either.
pub uninterp spec fn calendar_date(utc_seconds: int, offset_seconds: int) -> Option<(int, int, int)>;

/// The instants, in seconds from the Unix epoch, that lie well inside the range
/// of `chrono`'s dates (years -262143 to 262142).
pub open spec fn instant_in_range(utc_seconds: int) -> bool {
    -8_000_000_000_000 <= utc_seconds <= 8_000_000_000_000
}

/// Relies on `chrono::FixedOffset::east_opt` (`Some` exactly when the offset is
/// within a day), `chrono::DateTime::from_timestamp` (`Some` for an instant
/// whose day lies within chrono's date range), `DateTime::with_timezone` and
/// `Datelike::{year, month, day}` (month in 1..=12, day in 1..=31).
#[verifier::external_body]
fn date_at_offset(utc_seconds: i64, offset_seconds: i32) -> (r: Option<(i32, u32, u32)>)
    ensures
        match r {
            Some(d) => calendar_date(utc_seconds as int, offset_seconds as int) == Some(
                (d.0 as int, d.1 as int, d.2 as int),
            ) && 1 <= d.1 <= 12 && 1 <= d.2 <= 31,
            None => calendar_date(utc_seconds as int, offset_seconds as int) is None,
        },
        !(-86400 < offset_seconds < 86400) ==> r is None,
        -86400 < offset_seconds < 86400 && instant_in_range(utc_seconds as int) ==> r is Some,
{
    let offset = chrono::FixedOffset::east_opt(offset_seconds)?;
    let utc = chrono::DateTime::from_timestamp(utc_seconds, 0)?;
    let local = utc.with_timezone(&offset);
    Some((
        chrono::Datelike::year(&local),
        chrono::Datelike::month(&local),
        chrono::Datelike::day(&local),
    ))
}

/// The library's date for what `chrono` gave.
pub open spec fn civil_date(d: Option<(int, int, int)>) -> Option<CivilDate> {
    match d {
        Some(t) => if 1 <= t.1 <= 12 && 1 <= t.2 <= 31 && i32::MIN <= t.0 <= i32::MAX {
            Some(CivilDate { year: t.0 as i32, month: t.1 as u8, day: t.2 as u8 })
        } else {
            None
        },
        None => None,
    }
}

/// A date from the year, month and day that a calendar computation gave;
/// `None` where the month or the day is out of range.
pub fn date_from_parts(parts: Option<(i32, u32, u32)>) -> (r: Option<CivilDate>)
    ensures
        r == civil_date(
            match parts {
                Some(p) => Some((p.0 as int, p.1 as int, p.2 as int)),
                None => None,
            },
        ),
{
    match parts {
        Some((year, month, day)) => {
            if 1 <= month && month <= 12 && 1 <= day && day <= 31 {
                Some(CivilDate { year, month: month as u8, day: day as u8 })
            } else {
                None
            }
        },
        None => None,
    }
}

/// The offset in seconds for a whole number of hours, where it fits in an `i32`.
pub open spec fn offset_seconds(hours: int) -> Option<int> {
    if i32::MIN <= hours <= i32::MAX && i32::MIN <= hours * 3600 <= i32::MAX {
        Some(hours * 3600)
    } else {
        None
    }
}

/// Converts whole hours into seconds, or `None` where the hours or the seconds
/// do not fit in an `i32`.
pub fn hours_to_offset_seconds(hours: i64) -> (r: Option<i32>)
    ensures
        r matches Some(s) ==> offset_seconds(hours as int) == Some(s as int),
        r is None ==> offset_seconds(hours as int) is None,
{
    if hours < i32::MIN as i64 || hours > i32::MAX as i64 {
        return None;
    }
    let seconds: i64 = hours * 3600;
    if seconds < i32::MIN as i64 || seconds > i32::MAX as i64 {
        None
    } else {
        Some(seconds as i32)
    }
}

/// A breach of the resolution contract: the compiler asked for something that
/// the context never offered.
#[derive(Clone, Copy, Debug, PartialEq, Eq, Structural)]
pub enum WorldError {
    BinaryUnsupported(u16),
    FontUnloadable(usize),
}

/// The fonts of a render and the instant taken when it began.
pub struct Environment<F> {
    pub fonts: Vec<F>,
    pub now: Timestamp,
}

impl<F> Environment<F> {
    /// An environment over `fonts` whose instant is taken now.
    pub fn new(fonts: Vec<F>) -> (r: Self)
        ensures
            r.fonts == fonts,
            r.now.well_formed(),
    {
        Environment { fonts, now: local_now() }
    }
}

/// The sources and environment of one render.
pub struct TypstContext<F> {
    content: Content,
    environment: Environment<F>,
}

impl<F> TypstContext<F> {
    pub closed spec fn content_spec(&self) -> Content {
        self.content
    }

    pub closed spec fn environment_spec(&self) -> Environment<F> {
        self.environment
    }

    /// The source that `id` names: the layout, else the labels, else the data.
    pub open spec fn source_for(&self, id: u16) -> Option<VirtualSource> {
        let c = self.content_spec();
        if id == c.layout.id {
            Some(c.layout)
        } else if id == c.l18n.id {
            Some(c.l18n)
        } else if id == c.data.id {
            Some(c.data)
        } else {
            None
        }
    }

    /// Today's date at the offset asked for, or at the offset where the
    /// instant was taken.
    pub open spec fn today_spec(&self, offset_hours: Option<i64>) -> Option<CivilDate> {
        let now = self.environment_spec().now;
        match offset_hours {
            None => civil_date(calendar_date(now.utc_seconds as int, now.offset_seconds as int)),
            Some(h) => match offset_seconds(h as int) {
                Some(s) => civil_date(calendar_date(now.utc_seconds as int, s)),
                None => None,
            },
        }
    }

    pub fn new(layout: VirtualSource, l18n: VirtualSource, data: VirtualSource, environment: Environment<F>) -> (r: Self)
        ensures
            r.content_spec() == (Content { layout, l18n, data }),
            r.environment_spec() == environment,
    {
        TypstContext { content: Content { layout, l18n, data }, environment }
    }

    pub fn content(&self) -> (r: &Content)
        ensures
            *r == self.content_spec(),
    {
        &self.content
    }

    pub fn environment(&self) -> (r: &Environment<F>)
        ensures
            *r == self.environment_spec(),
    {
        &self.environment
    }

    /// The identity of the main document: the layout.
    pub fn main(&self) -> (r: u16)
        ensures
            r == self.content_spec().layout.id,
    {
        self.content.layout.id
    }

    /// Whether `id` names one of the three sources. The compiler asks only for
    /// identities that the context offered; any other request is a breach of
    /// the contract that the caller must stop on.
    pub fn resolves(&self, id: u16) -> (r: bool)
        ensures
            r == self.source_for(id) is Some,
    {
        id == self.content.layout.id || id == self.content.l18n.id || id == self.content.data.id
    }

    /// The source whose identity is `id`.
    pub fn source(&self, id: u16) -> (r: &VirtualSource)
        requires
            self.source_for(id) is Some,
        ensures
            self.source_for(id) == Some(*r),
    {
        if id == self.content.layout.id {
            &self.content.layout
        } else if id == self.content.l18n.id {
            &self.content.l18n
        } else {
            &self.content.data
        }
    }

    /// Binary files are never served: only program text is. Every request is
    /// reported as a breach of the contract, for the caller to stop on.
    pub fn file(&self, id: u16) -> (r: Result<Vec<u8>, WorldError>)
        ensures
            r == Err::<Vec<u8>, WorldError>(WorldError::BinaryUnsupported(id)),
    {
        Err(WorldError::BinaryUnsupported(id))
    }

    /// The number of font slots. An index at or past it names no font, which
    /// is a breach of the contract that the caller must stop on.
    pub fn font_count(&self) -> (r: usize)
        ensures
            r == self.environment_spec().fonts.len(),
    {
        self.environment.fonts.len()
    }

    /// The font slot at `index`.
    pub fn font(&self, index: usize) -> (r: &F)
        requires
            index < self.environment_spec().fonts.len(),
        ensures
            *r == self.environment_spec().fonts@[index as int],
    {
        &self.environment.fonts[index]
    }

    /// Today's date, at `offset_hours` east of UTC where given, else at the
    /// offset where the instant was taken; `None` where the offset cannot be
    /// represented or the date cannot be computed.
    pub fn today(&self, offset_hours: Option<i64>) -> (r: Option<CivilDate>)
        ensures
            r == self.today_spec(offset_hours),
            offset_hours matches Some(h) && (h >= 24 || h <= -24) ==> r is None,
            offset_hours matches Some(h) && -24 < h < 24 && instant_in_range(
                self.environment_spec().now.utc_seconds as int,
            ) ==> r is Some,
    {
        let now = &self.environment.now;
        let seconds = match offset_hours {
            None => now.offset_seconds,
            Some(hours) => match hours_to_offset_seconds(hours) {
                Some(s) => s,
                None => return None,
            },
        };
        date_from_parts(date_at_offset(now.utc_seconds, seconds))
    }
}

/// What a font slot gave when it was loaded: the font, or a breach of the
/// contract where it could not be loaded.
pub fn loaded_font<T>(index: usize, loaded: Option<T>) -> (r: Result<T, WorldError>)
    ensures
        match loaded {
            Some(f) => r == Ok::<T, WorldError>(f),
            None => r == Err::<T, WorldError>(WorldError::FontUnloadable(index)),
        },
{
    match loaded {
        Some(f) => Ok(f),
        None => Err(WorldError::FontUnloadable(index)),
    }
}

/// A context over three distinct identities resolves each identity to its own
/// source, and no other identity to any source.
pub proof fn distinct_identities_resolve<F>(ctx: TypstContext<F>, id: u16)
    requires
        ctx.content_spec().layout.id != ctx.content_spec().l18n.id,
        ctx.content_spec().layout.id != ctx.content_spec().data.id,
        ctx.content_spec().l18n.id != ctx.content_spec().data.id,
    ensures
        ctx.source_for(ctx.content_spec().layout.id) == Some(ctx.content_spec().layout),
        ctx.source_for(ctx.content_spec().l18n.id) == Some(ctx.content_spec().l18n),
        ctx.source_for(ctx.content_spec().data.id) == Some(ctx.content_spec().data),
        id != ctx.content_spec().layout.id && id != ctx.content_spec().l18n.id && id
            != ctx.content_spec().data.id ==> ctx.source_for(id) is None,
{
}

} // verus!
