//! Datapoints as they arrive from the backend, and the table rows made of them.
use vstd::prelude::*;

verus! {

/// The thirteen readings of one sensor sample.
///
/// Each field holds the IEEE-754 bit pattern of the reading (`f64::to_bits`):
/// the loader and the formatter move readings around without computing on
/// them, so the bits are kept exactly as they were decoded.
#[derive(Clone, Copy, Debug, PartialEq, Eq, Structural)]
pub struct Blob {
    pub lat: u64,
    pub lon: u64,
    pub alt: u64,
    pub accel_x: u64,
    pub accel_y: u64,
    pub accel_z: u64,
    pub gyro_x: u64,
    pub gyro_y: u64,
    pub gyro_z: u64,
    pub dac_1: u64,
    pub dac_2: u64,
    pub dac_3: u64,
    pub dac_4: u64,
}

/// One raw datapoint of a session, as received.
///
/// `data_blob` is the decoded payload, or `None` where the payload did not
/// have the shape of a [`Blob`].
#[derive(Clone, Debug)]
pub struct Row2 {
    pub datetime: String,
    pub id: i64,
    pub data_blob: Option<Blob>,
}

/// Mathematical view of a [`Row2`].
pub struct RawView {
    pub datetime: Seq<char>,
    pub id: i64,
    pub data_blob: Option<Blob>,
}

impl View for Row2 {
    type V = RawView;

    open spec fn view(&self) -> RawView {
        RawView { datetime: self.datetime@, id: self.id, data_blob: self.data_blob }
    }
}

/// A batch of datapoints returned by one fetch.
#[derive(Clone, Debug)]
pub struct DataResponse {
    pub datapoints: Vec<Row2>,
}

/// One row of the data table.
///
/// `sequence_index` is the position of the datapoint in the session's raw
/// buffer: a display id, stable for as long as that buffer lives.
#[derive(Clone, Debug)]
pub struct Row {
    pub sequence_index: usize,
    pub timestamp: String,
    pub readings: Blob,
}

/// Mathematical view of a [`Row`].
pub struct RowView {
    pub sequence_index: nat,
    pub timestamp: Seq<char>,
    pub readings: Blob,
}

impl View for Row {
    type V = RowView;

    open spec fn view(&self) -> RowView {
        RowView {
            sequence_index: self.sequence_index as nat,
            timestamp: self.timestamp@,
            readings: self.readings,
        }
    }
}

/// Views of a sequence of raw datapoints.
pub open spec fn raw_views(s: Seq<Row2>) -> Seq<RawView> {
    s.map_values(|r: Row2| r@)
}

/// Views of a sequence of rows.
pub open spec fn row_views(s: Seq<Row>) -> Seq<RowView> {
    s.map_values(|r: Row| r@)
}

/// Timestamps of a sequence of raw datapoints, in order.
pub open spec fn timestamps(s: Seq<RawView>) -> Seq<Seq<char>> {
    s.map_values(|r: RawView| r.datetime)
}

/// The row that the datapoint at position `i` of `raw` gives: none where its
/// payload did not decode.
pub open spec fn row_at(raw: Seq<RawView>, i: int) -> Seq<RowView> {
    match raw[i].data_blob {
        Some(b) => seq![RowView { sequence_index: i as nat, timestamp: raw[i].datetime, readings: b }],
        None => seq![],
    }
}

/// The rows that positions `from .. to` of `raw` give, in raw order.
pub open spec fn rows_between(raw: Seq<RawView>, from: int, to: int) -> Seq<RowView>
    decreases to - from,
{
    if to <= from {
        seq![]
    } else {
        rows_between(raw, from, to - 1) + row_at(raw, to - 1)
    }
}

/// Number of datapoints in positions `from .. to` of `raw` whose payload decoded.
pub open spec fn decoded_between(raw: Seq<RawView>, from: int, to: int) -> nat
    decreases to - from,
{
    if to <= from {
        0
    } else {
        decoded_between(raw, from, to - 1) + if raw[to - 1].data_blob is Some {
            1nat
        } else {
            0nat
        }
    }
}

/// The rows of positions `from .. to` carry strictly increasing sequence
/// indices, all in `from .. to`, and there is one for each payload that decoded.
pub proof fn lemma_rows_between(raw: Seq<RawView>, from: int, to: int)
    requires
        0 <= from <= to <= raw.len(),
    ensures
        rows_between(raw, from, to).len() == decoded_between(raw, from, to),
        forall|i: int|
            0 <= i < rows_between(raw, from, to).len() ==> from <= #[trigger] rows_between(
                raw,
                from,
                to,
            )[i].sequence_index < to,
        forall|i: int, j: int|
            0 <= i < j < rows_between(raw, from, to).len() ==> #[trigger] rows_between(
                raw,
                from,
                to,
            )[i].sequence_index < #[trigger] rows_between(raw, from, to)[j].sequence_index,
    decreases to - from,
{
    if from < to {
        lemma_rows_between(raw, from, to - 1);
    }
}

/// Copies a row.
pub(crate) fn copy_row(r: &Row) -> (c: Row)
    ensures
        c@ == r@,
{
    Row { sequence_index: r.sequence_index, timestamp: r.timestamp.clone(), readings: r.readings }
}

} // verus!
