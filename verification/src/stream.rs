use crate::aspect::{fits_exactly, reduce, reduced_den, reduced_num, REDUCE_BOUND};
use crate::desc::{Context, Dictionary, Parameters, StreamDesc};
use crate::discard::{discard_from_raw_spec, Discard};
use crate::disposition::{Disposition, DISPOSITION_ALL};
use crate::rational::Rational;
use crate::side_data::SideDataIter;
use vstd::prelude::*;
use vstd::std_specs::cmp::{PartialEqSpec, PartialEqSpecImpl};

verus! {

/// A read-only view into one slot of a container context's stream table.
///
/// The view holds only a borrow of the owning context and the slot index; it
/// caches no field. Every accessor reads the descriptor afresh at call time,
/// so later reads observe whatever the owning context has written since — and
/// the borrow makes it statically impossible for a view to outlive its
/// context. Accessors never fail: absence is whatever sentinel the descriptor
/// field carries.
#[derive(Clone, Copy)]
pub struct Stream<'a> {
    context: &'a Context,
    index: usize,
}

impl<'a> Stream<'a> {
    /// The owning context the view borrows from.
    pub closed spec fn ctx_spec(&self) -> Context {
        *self.context
    }

    /// The slot of the stream table the view denotes.
    pub closed spec fn index_spec(&self) -> int {
        self.index as int
    }

    /// Validity of the view: its slot lies inside the context's stream table.
    pub open spec fn wf(&self) -> bool {
        0 <= self.index_spec() < self.ctx_spec().streams@.len()
    }

    /// The descriptor the view resolves to.
    pub open spec fn desc_spec(&self) -> StreamDesc {
        self.ctx_spec().streams@[self.index_spec()]
    }

    /// Builds the view of slot `index` of `context`'s stream table. Index
    /// validity is the caller's to uphold here, once; accessors do not
    /// re-validate it.
    pub fn wrap(context: &'a Context, index: usize) -> (r: Stream<'a>)
        requires
            index < context.streams@.len(),
        ensures
            r.ctx_spec() == *context,
            r.index_spec() == index as int,
            r.wf(),
    {
        Stream { context, index }
    }

    /// The underlying descriptor, borrowed from the owning context.
    pub fn descriptor(&self) -> (r: &'a StreamDesc)
        requires
            self.wf(),
        ensures
            *r == self.desc_spec(),
    {
        &self.context.streams[self.index]
    }

    /// The stream's format-specific identifier.
    pub fn id(&self) -> (r: i32)
        requires
            self.wf(),
        ensures
            r == self.desc_spec().id,
    {
        self.descriptor().id
    }

    /// The codec parameters of the stream, borrowed from the descriptor.
    pub fn parameters(&self) -> (r: &'a Parameters)
        requires
            self.wf(),
        ensures
            *r == self.desc_spec().codecpar,
    {
        &self.descriptor().codecpar
    }

    /// The slot index recorded in the descriptor itself. In a populated
    /// table that is the very slot the view was built with.
    pub fn index(&self) -> (r: usize)
        requires
            self.wf(),
            0 <= self.desc_spec().index,
        ensures
            r as int == self.desc_spec().index as int,
            self.ctx_spec().wf() ==> r as int == self.index_spec(),
    {
        self.descriptor().index as usize
    }

    /// The unit in which the stream's timestamps are expressed.
    pub fn time_base(&self) -> (r: Rational)
        requires
            self.wf(),
        ensures
            r == self.desc_spec().time_base,
    {
        self.descriptor().time_base
    }

    /// Presentation time of the first frame, in time-base units.
    pub fn start_time(&self) -> (r: i64)
        requires
            self.wf(),
        ensures
            r == self.desc_spec().start_time,
    {
        self.descriptor().start_time
    }

    /// Duration of the stream, in time-base units (conversion to seconds is
    /// the caller's responsibility).
    pub fn duration(&self) -> (r: i64)
        requires
            self.wf(),
        ensures
            r == self.desc_spec().duration,
    {
        self.descriptor().duration
    }

    /// Number of frames, or the zero sentinel when unknown.
    pub fn frames(&self) -> (r: i64)
        requires
            self.wf(),
        ensures
            r == self.desc_spec().frames,
    {
        self.descriptor().frames
    }

    /// The stream's disposition flags, decoded truncatingly from the raw
    /// mask: unknown bits are silently dropped, never an error.
    pub fn disposition(&self) -> (r: Disposition)
        requires
            self.wf(),
        ensures
            r.bits_spec() == self.desc_spec().disposition & DISPOSITION_ALL,
    {
        Disposition::from_bits_truncate(self.descriptor().disposition)
    }

    /// The stream's discard policy, decoded from the raw value.
    pub fn discard(&self) -> (r: Discard)
        requires
            self.wf(),
        ensures
            r == discard_from_raw_spec(self.desc_spec().discard as int),
    {
        Discard::from_raw(self.descriptor().discard)
    }

    /// A fresh iterator over the descriptor's side-data array, starting at
    /// position zero.
    pub fn side_data(&self) -> (r: SideDataIter<'a>)
        requires
            self.wf(),
        ensures
            r.wf(),
            r.stream_spec() == *self,
            r.cursor_spec() == 0,
    {
        SideDataIter::new(self)
    }

    /// The stream's real base frame rate.
    pub fn rate(&self) -> (r: Rational)
        requires
            self.wf(),
        ensures
            r == self.desc_spec().r_frame_rate,
    {
        self.descriptor().r_frame_rate
    }

    /// The stream's average frame rate.
    pub fn avg_frame_rate(&self) -> (r: Rational)
        requires
            self.wf(),
        ensures
            r == self.desc_spec().avg_frame_rate,
    {
        self.descriptor().avg_frame_rate
    }

    /// The display aspect ratio derived from the coded dimensions and the
    /// sample aspect ratio, reduced within `REDUCE_BOUND`, together with the
    /// dimensions used. A zero sample aspect ratio or zero dimension gives a
    /// zero ratio, not an error; negative dimensions pass through unchanged.
    pub fn get_display_aspect_ratio(&self) -> (r: (Rational, i32, i32))
        requires
            self.wf(),
        ensures
            r.1 == self.desc_spec().codecpar.width,
            r.2 == self.desc_spec().codecpar.height,
            -REDUCE_BOUND <= r.0.num as int <= REDUCE_BOUND,
            0 <= r.0.den as int <= REDUCE_BOUND,
            ({
                let n = self.desc_spec().codecpar.width as int
                    * self.desc_spec().sample_aspect_ratio.num as int;
                let d = self.desc_spec().codecpar.height as int
                    * self.desc_spec().sample_aspect_ratio.den as int;
                fits_exactly(n, d, REDUCE_BOUND as int) ==> r.0.num as int == reduced_num(n, d)
                    && r.0.den as int == reduced_den(n, d)
            }),
    {
        let desc = self.descriptor();
        let sar: Rational = desc.sample_aspect_ratio;
        let w: i32 = desc.codecpar.width;
        let h: i32 = desc.codecpar.height;
        proof {
            assert(-0x4000_0000_0000_0000 <= (w as int) * (sar.num as int)
                <= 0x4000_0000_0000_0000 && -0x4000_0000_0000_0000 <= (h as int) * (
            sar.den as int) <= 0x4000_0000_0000_0000) by (nonlinear_arith)
                requires
                    -0x8000_0000 <= w <= 0x7fff_ffff,
                    -0x8000_0000 <= h <= 0x7fff_ffff,
                    -0x8000_0000 <= sar.num <= 0x7fff_ffff,
                    -0x8000_0000 <= sar.den <= 0x7fff_ffff,
            ;
        }
        // widened before the multiplication, so pathological dimensions
        // cannot overflow
        let (ratio, _exact) = reduce(
            (w as i64) * (sar.num as i64),
            (h as i64) * (sar.den as i64),
            REDUCE_BOUND,
        );
        (ratio, w, h)
    }

    /// The key/value metadata dictionary, borrowed from the descriptor.
    pub fn metadata(&self) -> (r: &'a Dictionary)
        requires
            self.wf(),
        ensures
            *r == self.desc_spec().metadata,
    {
        &self.descriptor().metadata
    }
}

/// Views are compared by the slot they denote within their owning context's
/// stream table: with a single owning context, slot identity is descriptor
/// identity.
impl<'a> PartialEq for Stream<'a> {
    fn eq(&self, other: &Stream<'a>) -> (r: bool) {
        self.index == other.index
    }
}

impl<'a> Eq for Stream<'a> {}

impl<'a> PartialEqSpecImpl for Stream<'a> {
    open spec fn obeys_eq_spec() -> bool {
        true
    }

    open spec fn eq_spec(&self, other: &Stream<'a>) -> bool {
        self.index_spec() == other.index_spec()
    }
}

/// Two views into the same stream table compare equal exactly when they were
/// built with the same slot index: same slot means equal, different slots
/// mean unequal.
pub proof fn lemma_view_identity<'a>(a: Stream<'a>, b: Stream<'a>)
    requires
        a.ctx_spec() == b.ctx_spec(),
    ensures
        PartialEqSpec::eq_spec(&a, &b) <==> a.index_spec() == b.index_spec(),
{
}

/// In a populated stream table every descriptor records its own slot, so the
/// index read through a valid view equals the index the view was built with.
pub proof fn lemma_populated_index<'a>(v: Stream<'a>)
    requires
        v.wf(),
        v.ctx_spec().wf(),
    ensures
        v.desc_spec().index == v.index_spec(),
{
}

} // verus!
