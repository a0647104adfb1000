//! The stored studio overlays (brands, captions, QR codes, tickers) and
//! webhooks: adding one under a new identifier, patching one found by its
//! identifier. Removing one is `remove_keyed`.

use vstd::prelude::*;

use crate::server::records::{Keyed, find_keyed, key_at};
use crate::server::restream::{Brand, Caption, QrCode, Ticker, WebhookSubscription, clone_opt};
use crate::server::accounts::same_webhook;

verus! {

/// A stored record with an identifier and the times it was created and
/// last changed.
pub trait Record: Keyed + Sized {
    /// Whether two records hold the same values.
    spec fn same(&self, other: Self) -> bool;

    /// Whether `self` is `base` under identifier `id`, created at `created`
    /// and changed at `updated`.
    spec fn restamped(&self, base: Self, id: Seq<char>, created: u64, updated: u64) -> bool;

    /// Whether `self` is `base` changed at `updated`.
    spec fn touched(&self, base: Self, updated: u64) -> bool;

    /// Gives the record its identifier, created and changed `now`.
    fn stamp(&mut self, id: String, now: u64)
        ensures
            final(self).restamped(*old(self), id@, now, now),
    ;

    /// Marks the record changed `now`.
    fn touch(&mut self, now: u64)
        ensures
            final(self).touched(*old(self), now),
    ;

    /// A copy.
    fn copy(&self) -> (r: Self)
        ensures
            r.same(*self),
    ;
}

/// A record whose fields a patch can replace.
pub trait Patchable: Record {
    /// The fields a patch may carry.
    type Patch;

    /// The record with the fields the patch carries replaced.
    spec fn patched(self, p: Self::Patch) -> Self;

    /// Replaces the fields the patch carries.
    fn apply(&mut self, p: Self::Patch)
        ensures
            *final(self) == old(self).patched(p),
    ;
}

/// Adds `record` under identifier `id`, created at `now`, and returns a
/// copy of what was added.
pub fn add_record<T: Record>(records: &mut Vec<T>, record: T, id: String, now: u64) -> (r: T)
    ensures
        r.restamped(record, id@, now, now),
        final(records)@.len() == old(records)@.len() + 1,
        final(records)@.drop_last() == old(records)@,
        final(records)@.last().same(r),
{
    let mut x = record;
    x.stamp(id, now);
    records.push(x.copy());
    proof {
        assert(final(records)@.drop_last() =~= old(records)@);
    }
    x
}

/// Patches the first record with identifier `id` at `now`; a copy of it,
/// or `None`, changing nothing, when there is none.
pub fn patch_record<T: Patchable>(records: &mut Vec<T>, id: &str, p: T::Patch, now: u64) -> (r: Option<T>)
    ensures
        ({
            let k = key_at(old(records)@, id@, 0);
            if k == -1 {
                r is None && final(records)@ == old(records)@
            } else {
                &&& r matches Some(x) && x.touched(old(records)@[k].patched(p), now)
                &&& final(records)@.len() == old(records)@.len()
                &&& forall|j: int| 0 <= j < old(records)@.len() && j != k ==> final(records)@[j] == old(records)@[j]
                &&& final(records)@[k].same(r->0)
            }
        }),
{
    match find_keyed(records, id) {
        None => None,
        Some(k) => {
            let mut x = records.remove(k);
            x.apply(p);
            x.touch(now);
            records.insert(k, x.copy());
            proof {
                assert forall|j: int| 0 <= j < old(records)@.len() && j != k implies final(records)@[j]
                    == old(records)@[j] by {
                    if j < k {
                        assert(final(records)@[j] == old(records)@.remove(k as int)[j]);
                    } else {
                        assert(final(records)@[j] == old(records)@.remove(k as int)[j - 1]);
                    }
                }
            }
            Some(x)
        },
    }
}

/// The fields a brand patch may carry.
#[derive(Debug, Clone)]
pub struct BrandPatch {
    pub id: Option<String>,
    pub name: Option<String>,
    pub logo_url: Option<Option<String>>,
    pub primary_color: Option<String>,
    pub secondary_color: Option<String>,
    pub font_family: Option<String>,
    pub created_at: Option<u64>,
}

/// The given value, or the one there.
pub open spec fn given<T>(v: Option<T>, there: T) -> T {
    match v {
        Some(x) => x,
        None => there,
    }
}

fn take_given<T>(v: Option<T>, there: T) -> (r: T)
    ensures
        r == given(v, there),
{
    match v {
        Some(x) => x,
        None => there,
    }
}

impl Record for Brand {
    open spec fn same(&self, other: Self) -> bool {
        *self == other
    }

    open spec fn restamped(&self, base: Self, id: Seq<char>, created: u64, updated: u64) -> bool {
        &&& self.id@ == id
        &&& *self == Brand { id: self.id, created_at: created, updated_at: updated, ..base }
    }

    open spec fn touched(&self, base: Self, updated: u64) -> bool {
        *self == Brand { updated_at: updated, ..base }
    }

    fn stamp(&mut self, id: String, now: u64) {
        self.id = id;
        self.created_at = now;
        self.updated_at = now;
    }

    fn touch(&mut self, now: u64) {
        self.updated_at = now;
    }

    fn copy(&self) -> (r: Self) {
        Brand {
            id: self.id.clone(),
            name: self.name.clone(),
            logo_url: clone_opt(&self.logo_url),
            primary_color: self.primary_color.clone(),
            secondary_color: self.secondary_color.clone(),
            font_family: self.font_family.clone(),
            created_at: self.created_at,
            updated_at: self.updated_at,
        }
    }
}

impl Patchable for Brand {
    type Patch = BrandPatch;

    open spec fn patched(self, p: BrandPatch) -> Self {
        Brand {
            id: given(p.id, self.id),
            name: given(p.name, self.name),
            logo_url: given(p.logo_url, self.logo_url),
            primary_color: given(p.primary_color, self.primary_color),
            secondary_color: given(p.secondary_color, self.secondary_color),
            font_family: given(p.font_family, self.font_family),
            created_at: given(p.created_at, self.created_at),
            ..self
        }
    }

    fn apply(&mut self, p: BrandPatch) {
        let b = self.copy();
        *self = Brand {
            id: take_given(p.id, b.id),
            name: take_given(p.name, b.name),
            logo_url: take_given(p.logo_url, b.logo_url),
            primary_color: take_given(p.primary_color, b.primary_color),
            secondary_color: take_given(p.secondary_color, b.secondary_color),
            font_family: take_given(p.font_family, b.font_family),
            created_at: take_given(p.created_at, b.created_at),
            updated_at: b.updated_at,
        };
    }
}

/// The fields a caption patch may carry; the style as JSON text.
#[derive(Debug, Clone)]
pub struct CaptionPatch {
    pub id: Option<String>,
    pub name: Option<String>,
    pub language: Option<String>,
    pub style: Option<String>,
    pub enabled: Option<bool>,
    pub created_at: Option<u64>,
}

impl Record for Caption {
    open spec fn same(&self, other: Self) -> bool {
        *self == other
    }

    open spec fn restamped(&self, base: Self, id: Seq<char>, created: u64, updated: u64) -> bool {
        &&& self.id@ == id
        &&& *self == Caption { id: self.id, created_at: created, updated_at: updated, ..base }
    }

    open spec fn touched(&self, base: Self, updated: u64) -> bool {
        *self == Caption { updated_at: updated, ..base }
    }

    fn stamp(&mut self, id: String, now: u64) {
        self.id = id;
        self.created_at = now;
        self.updated_at = now;
    }

    fn touch(&mut self, now: u64) {
        self.updated_at = now;
    }

    fn copy(&self) -> (r: Self) {
        Caption {
            id: self.id.clone(),
            name: self.name.clone(),
            language: self.language.clone(),
            style: self.style.clone(),
            enabled: self.enabled,
            created_at: self.created_at,
            updated_at: self.updated_at,
        }
    }
}

impl Patchable for Caption {
    type Patch = CaptionPatch;

    open spec fn patched(self, p: CaptionPatch) -> Self {
        Caption {
            id: given(p.id, self.id),
            name: given(p.name, self.name),
            language: given(p.language, self.language),
            style: given(p.style, self.style),
            enabled: given(p.enabled, self.enabled),
            created_at: given(p.created_at, self.created_at),
            ..self
        }
    }

    fn apply(&mut self, p: CaptionPatch) {
        let c = self.copy();
        *self = Caption {
            id: take_given(p.id, c.id),
            name: take_given(p.name, c.name),
            language: take_given(p.language, c.language),
            style: take_given(p.style, c.style),
            enabled: take_given(p.enabled, c.enabled),
            created_at: take_given(p.created_at, c.created_at),
            updated_at: c.updated_at,
        };
    }
}

/// The fields a QR code patch may carry.
#[derive(Debug, Clone)]
pub struct QrPatch {
    pub id: Option<String>,
    pub name: Option<String>,
    pub data: Option<String>,
    pub foreground: Option<String>,
    pub background: Option<String>,
    pub enabled: Option<bool>,
    pub position: Option<String>,
    pub created_at: Option<u64>,
}

impl Record for QrCode {
    open spec fn same(&self, other: Self) -> bool {
        *self == other
    }

    open spec fn restamped(&self, base: Self, id: Seq<char>, created: u64, updated: u64) -> bool {
        &&& self.id@ == id
        &&& *self == QrCode { id: self.id, created_at: created, updated_at: updated, ..base }
    }

    open spec fn touched(&self, base: Self, updated: u64) -> bool {
        *self == QrCode { updated_at: updated, ..base }
    }

    fn stamp(&mut self, id: String, now: u64) {
        self.id = id;
        self.created_at = now;
        self.updated_at = now;
    }

    fn touch(&mut self, now: u64) {
        self.updated_at = now;
    }

    fn copy(&self) -> (r: Self) {
        self.duplicate()
    }
}

impl Patchable for QrCode {
    type Patch = QrPatch;

    open spec fn patched(self, p: QrPatch) -> Self {
        QrCode {
            id: given(p.id, self.id),
            name: given(p.name, self.name),
            data: given(p.data, self.data),
            foreground: given(p.foreground, self.foreground),
            background: given(p.background, self.background),
            enabled: given(p.enabled, self.enabled),
            position: given(p.position, self.position),
            created_at: given(p.created_at, self.created_at),
            ..self
        }
    }

    fn apply(&mut self, p: QrPatch) {
        let q = self.copy();
        *self = QrCode {
            id: take_given(p.id, q.id),
            name: take_given(p.name, q.name),
            data: take_given(p.data, q.data),
            foreground: take_given(p.foreground, q.foreground),
            background: take_given(p.background, q.background),
            enabled: take_given(p.enabled, q.enabled),
            position: take_given(p.position, q.position),
            created_at: take_given(p.created_at, q.created_at),
            updated_at: q.updated_at,
        };
    }
}

/// The fields a ticker patch may carry.
#[derive(Debug, Clone)]
pub struct TickerPatch {
    pub id: Option<String>,
    pub text: Option<String>,
    pub speed: Option<u32>,
    pub color: Option<String>,
    pub background_color: Option<String>,
    pub enabled: Option<bool>,
    pub order: Option<u32>,
    pub created_at: Option<u64>,
}

impl Record for Ticker {
    open spec fn same(&self, other: Self) -> bool {
        *self == other
    }

    open spec fn restamped(&self, base: Self, id: Seq<char>, created: u64, updated: u64) -> bool {
        &&& self.id@ == id
        &&& *self == Ticker { id: self.id, created_at: created, updated_at: updated, ..base }
    }

    open spec fn touched(&self, base: Self, updated: u64) -> bool {
        *self == Ticker { updated_at: updated, ..base }
    }

    fn stamp(&mut self, id: String, now: u64) {
        self.id = id;
        self.created_at = now;
        self.updated_at = now;
    }

    fn touch(&mut self, now: u64) {
        self.updated_at = now;
    }

    fn copy(&self) -> (r: Self) {
        self.duplicate()
    }
}

impl Patchable for Ticker {
    type Patch = TickerPatch;

    open spec fn patched(self, p: TickerPatch) -> Self {
        Ticker {
            id: given(p.id, self.id),
            text: given(p.text, self.text),
            speed: given(p.speed, self.speed),
            color: given(p.color, self.color),
            background_color: given(p.background_color, self.background_color),
            enabled: given(p.enabled, self.enabled),
            order: given(p.order, self.order),
            created_at: given(p.created_at, self.created_at),
            ..self
        }
    }

    fn apply(&mut self, p: TickerPatch) {
        let t = self.copy();
        *self = Ticker {
            id: take_given(p.id, t.id),
            text: take_given(p.text, t.text),
            speed: take_given(p.speed, t.speed),
            color: take_given(p.color, t.color),
            background_color: take_given(p.background_color, t.background_color),
            enabled: take_given(p.enabled, t.enabled),
            order: take_given(p.order, t.order),
            created_at: take_given(p.created_at, t.created_at),
            updated_at: t.updated_at,
        };
    }
}

impl Record for WebhookSubscription {
    open spec fn same(&self, other: Self) -> bool {
        same_webhook(*self, other)
    }

    open spec fn restamped(&self, base: Self, id: Seq<char>, created: u64, updated: u64) -> bool {
        &&& self.id@ == id
        &&& self.url == base.url
        &&& self.secret == base.secret
        &&& self.events == base.events
        &&& self.enabled == base.enabled
        &&& self.created_at == created
        &&& self.updated_at == updated
    }

    open spec fn touched(&self, base: Self, updated: u64) -> bool {
        &&& self.id == base.id
        &&& self.url == base.url
        &&& self.secret == base.secret
        &&& self.events == base.events
        &&& self.enabled == base.enabled
        &&& self.created_at == base.created_at
        &&& self.updated_at == updated
    }

    fn stamp(&mut self, id: String, now: u64) {
        self.id = id;
        self.created_at = now;
        self.updated_at = now;
    }

    fn touch(&mut self, now: u64) {
        self.updated_at = now;
    }

    fn copy(&self) -> (r: Self) {
        self.duplicate()
    }
}

} // verus!
