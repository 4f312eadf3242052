use crate::rational::Rational;
use vstd::prelude::*;

verus! {

/// One attached side-channel metadata item of a stream (rotation, colour
/// information and the like): a tag telling what the payload holds, and the
/// raw payload bytes.
pub struct SideDataEntry {
    pub kind: i32,
    pub data: Vec<u8>,
}

/// The codec parameters reachable from a stream descriptor, as far as this
/// view layer reads them: the coded dimensions. They are not validated here;
/// negative dimensions pass through unchanged.
pub struct Parameters {
    pub width: i32,
    pub height: i32,
}

/// The key/value metadata dictionary attached to a stream descriptor.
pub struct Dictionary {
    pub entries: Vec<(String, String)>,
}

impl Dictionary {
    /// How many key/value entries the dictionary holds.
    pub fn len(&self) -> (r: usize)
        ensures
            r == self.entries@.len(),
    {
        self.entries.len()
    }
}

/// The record describing one stream's metadata inside a container: identity,
/// timing, frame statistics, raw disposition and discard values, the sample
/// aspect ratio, the codec parameters, the side-data array and the metadata
/// dictionary. Scalar absence is carried as the field's zero/unset sentinel,
/// never as an error.
pub struct StreamDesc {
    pub id: i32,
    pub index: i32,
    pub time_base: Rational,
    pub start_time: i64,
    pub duration: i64,
    pub frames: i64,
    pub disposition: i32,
    pub discard: i32,
    pub sample_aspect_ratio: Rational,
    pub r_frame_rate: Rational,
    pub avg_frame_rate: Rational,
    pub codecpar: Parameters,
    pub side_data: Vec<SideDataEntry>,
    pub metadata: Dictionary,
}

/// The owning container context: it alone owns the stream table, and it is
/// the sole mutator of it. Views borrow from it and can never outlive it.
pub struct Context {
    pub streams: Vec<StreamDesc>,
}

impl Context {
    /// A populated stream table: every descriptor records the index of its
    /// own slot.
    pub open spec fn wf(&self) -> bool {
        forall|i: int|
            0 <= i < self.streams@.len() ==> (#[trigger] self.streams@[i]).index == i
    }

    /// How many streams the table holds.
    pub fn nb_streams(&self) -> (r: usize)
        ensures
            r == self.streams@.len(),
    {
        self.streams.len()
    }
}

} // verus!
