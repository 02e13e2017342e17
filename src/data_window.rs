//! The data window's loader, formatter and pager state.
//!
//! The window polls the backend for the selected session: the first poll of a
//! session asks for all of its datapoints, later ones only for those after the
//! latest timestamp seen. The caller performs the fetch and hands the outcome
//! back; fetched datapoints are then formatted into table rows incrementally,
//! in ascending or descending order of their position, and shown page by page.
use vstd::prelude::*;
use crate::pager::{clamp_page, clamp_page_index, page_count, page_count_spec, page_range, page_range_spec};
use crate::records::{
    copy_row, decoded_between, lemma_rows_between, raw_views, row_views, rows_between, timestamps,
    DataResponse, RawView, Row, Row2, RowView,
};
use crate::timestamp::{latest, lemma_latest_grows, opt_ts_le, timestamp_le};

verus! {

/// Least time between two polls of one session, in milliseconds.
pub const REFRESH_INTERVAL_MS: u64 = 1000;

/// Lower bound of an incremental fetch when no datapoint has been seen yet.
pub open spec fn epoch_sentinel() -> Seq<char> {
    "2025-01-01T00:00:00.000"@
}

/// What the caller is to fetch: every datapoint of `session_id` when `since`
/// is `None`, else those strictly later than `since`.
#[derive(Clone, Debug)]
pub struct FetchRequest {
    pub session_id: String,
    pub since: Option<String>,
}

/// Mathematical view of a [`FetchRequest`].
pub struct FetchRequestView {
    pub session_id: Seq<char>,
    pub since: Option<Seq<char>>,
}

impl View for FetchRequest {
    type V = FetchRequestView;

    open spec fn view(&self) -> FetchRequestView {
        FetchRequestView { session_id: self.session_id@, since: self.since.deep_view() }
    }
}

/// Why a fetch outcome was not applied.
#[derive(Clone, Copy, Debug, PartialEq, Eq, Structural)]
pub enum LoadError {
    /// The fetch was made for a session that is no longer the selected one.
    StaleSession,
    /// The backend answered with this status, which is not a success.
    Status(u16),
    /// The backend reported success but sent no decodable body.
    MissingBody,
}

/// Mathematical view of a [`DataWindow`].
pub struct DataWindowView {
    /// The session whose data the buffers hold.
    pub session_id: Seq<char>,
    /// Datapoints fetched so far, in arrival order.
    pub raw: Seq<RawView>,
    /// Rows shown, in the current sort direction.
    pub display: Seq<RowView>,
    /// How many datapoints of `raw` have been formatted.
    pub formatted_count: nat,
    /// Latest timestamp among the datapoints of `raw`.
    pub last_seen: Option<Seq<char>>,
    /// The next fetch of this session asks for all of its datapoints.
    pub first_fetch: bool,
    /// A fetch has been issued for this session.
    pub loaded: bool,
    /// Datapoints arrived that have not been formatted yet.
    pub needs_format: bool,
    /// Time of the last issued fetch, in milliseconds.
    pub last_refresh: int,
    /// Rows are shown oldest first.
    pub ascending: bool,
    /// Index of the page shown.
    pub current_page: nat,
}

/// The rows in ascending order of position, whatever the sort direction.
pub open spec fn ascending_rows(v: DataWindowView) -> Seq<RowView> {
    if v.ascending {
        v.display
    } else {
        v.display.reverse()
    }
}

/// Sequence indices strictly increase along `s`.
pub open spec fn strictly_increasing(s: Seq<RowView>) -> bool {
    forall|i: int, j: int|
        0 <= i < j < s.len() ==> #[trigger] s[i].sequence_index < #[trigger] s[j].sequence_index
}

/// Every sequence index in `s` is below `n`.
pub open spec fn indices_below(s: Seq<RowView>, n: nat) -> bool {
    forall|i: int| 0 <= i < s.len() ==> #[trigger] s[i].sequence_index < n
}

/// The invariant of a data window: the cursor is the latest timestamp of the
/// raw buffer; read in ascending order the rows carry strictly increasing
/// sequence indices below the formatted count; the page index is in range.
pub open spec fn well_formed(v: DataWindowView) -> bool {
    &&& v.last_seen == latest(timestamps(v.raw))
    &&& strictly_increasing(ascending_rows(v))
    &&& indices_below(ascending_rows(v), v.formatted_count)
    &&& v.current_page == clamp_page(v.current_page, v.display.len())
}

/// The window after `poll` noticed which session is selected: on a change of
/// session the cursor and both buffers are reset.
pub open spec fn switch_session(v: DataWindowView, session_id: Seq<char>) -> DataWindowView {
    if session_id == v.session_id {
        v
    } else {
        DataWindowView {
            session_id,
            raw: seq![],
            display: seq![],
            formatted_count: 0,
            last_seen: None,
            first_fetch: true,
            loaded: false,
            needs_format: false,
            current_page: 0,
            ..v
        }
    }
}

/// A poll at time `now` issues a fetch: on the first fetch of a session, before
/// any fetch, or once the refresh interval has passed.
pub open spec fn poll_due(v: DataWindowView, now: int) -> bool {
    v.first_fetch || !v.loaded || now - v.last_refresh >= REFRESH_INTERVAL_MS
}

/// The fetch that a due poll of `v` issues.
pub open spec fn request_for(v: DataWindowView) -> FetchRequestView {
    FetchRequestView {
        session_id: v.session_id,
        since: if v.first_fetch {
            None
        } else {
            Some(
                match v.last_seen {
                    Some(t) => t,
                    None => epoch_sentinel(),
                },
            )
        },
    }
}

/// The window after a poll of `session_id` at time `now`, and the fetch it issues.
pub open spec fn poll_spec(v: DataWindowView, session_id: Seq<char>, now: int) -> (
    DataWindowView,
    Option<FetchRequestView>,
) {
    let w = switch_session(v, session_id);
    if poll_due(w, now) {
        (
            DataWindowView { first_fetch: false, loaded: true, last_refresh: now, ..w },
            Some(request_for(w)),
        )
    } else {
        (w, None)
    }
}

/// Statuses that the backend uses for success.
pub open spec fn is_success(status: u16) -> bool {
    status == 200 || status == 201
}

/// Why the outcome of `request` is refused, if it is.
pub open spec fn apply_error(
    v: DataWindowView,
    request: FetchRequestView,
    status: u16,
    has_body: bool,
) -> Option<LoadError> {
    if request.session_id != v.session_id {
        Some(LoadError::StaleSession)
    } else if !is_success(status) {
        Some(LoadError::Status(status))
    } else if !has_body {
        Some(LoadError::MissingBody)
    } else {
        None
    }
}

/// The window after the datapoints `batch` of `request` were applied: a full
/// fetch replaces the raw buffer, an incremental one extends it.
pub open spec fn apply_spec(
    v: DataWindowView,
    request: FetchRequestView,
    batch: Seq<RawView>,
) -> DataWindowView {
    let raw = if request.since is None {
        batch
    } else {
        v.raw + batch
    };
    DataWindowView { raw, last_seen: latest(timestamps(raw)), needs_format: true, ..v }
}

/// The window after formatting: the unformatted tail of the raw buffer becomes
/// rows, added at the end of the ascending order. A formatted count beyond the
/// raw buffer (the buffer shrank) first drops all rows.
pub open spec fn format_spec(v: DataWindowView) -> DataWindowView {
    let reset = v.formatted_count > v.raw.len();
    let base = if reset {
        Seq::<RowView>::empty()
    } else {
        v.display
    };
    let start: int = if reset {
        0
    } else {
        v.formatted_count as int
    };
    let fresh = rows_between(v.raw, start, v.raw.len() as int);
    let display = if v.ascending {
        base + fresh
    } else {
        fresh.reverse() + base
    };
    DataWindowView {
        display,
        formatted_count: v.raw.len(),
        needs_format: false,
        current_page: clamp_page(v.current_page, display.len()),
        ..v
    }
}

/// The window after the sort direction was toggled.
pub open spec fn toggle_spec(v: DataWindowView) -> DataWindowView {
    DataWindowView { ascending: !v.ascending, display: v.display.reverse(), ..v }
}

/// The window after a step to the next page, where there is one.
pub open spec fn next_page_spec(v: DataWindowView) -> DataWindowView {
    if v.current_page + 1 < page_count_spec(v.display.len()) {
        DataWindowView { current_page: v.current_page + 1, ..v }
    } else {
        v
    }
}

/// The window after a step to the previous page, where there is one.
pub open spec fn prev_page_spec(v: DataWindowView) -> DataWindowView {
    if v.current_page > 0 {
        DataWindowView { current_page: (v.current_page - 1) as nat, ..v }
    } else {
        v
    }
}

pub proof fn lemma_reverse_reverse<A>(s: Seq<A>)
    ensures
        s.reverse().reverse() == s,
{
    assert(s.reverse().reverse() =~= s);
}

pub proof fn lemma_reverse_concat<A>(a: Seq<A>, b: Seq<A>)
    ensures
        (a + b).reverse() == b.reverse() + a.reverse(),
{
    assert((a + b).reverse() =~= b.reverse() + a.reverse());
}

/// Two increasing runs, the first wholly below `n` and the second wholly at or
/// above it, make one increasing run.
pub proof fn lemma_increasing_concat(a: Seq<RowView>, b: Seq<RowView>, n: nat)
    requires
        strictly_increasing(a),
        strictly_increasing(b),
        indices_below(a, n),
        forall|i: int| 0 <= i < b.len() ==> n <= #[trigger] b[i].sequence_index,
    ensures
        strictly_increasing(a + b),
{
    assert forall|i: int, j: int| 0 <= i < j < (a + b).len() implies #[trigger] (a
        + b)[i].sequence_index < #[trigger] (a + b)[j].sequence_index by {
        if j < a.len() {
        } else if i < a.len() {
            assert(b[j - a.len()].sequence_index >= n);
        } else {
            assert((a + b)[i] == b[i - a.len()]);
        }
    }
}

/// Formatting twice in a row, with no datapoint arriving in between, leaves
/// the window as the first formatting left it.
pub proof fn lemma_format_idempotent(v: DataWindowView)
    ensures
        format_spec(format_spec(v)) == format_spec(v),
{
    let w = format_spec(v);
    let n = w.raw.len() as int;
    assert(rows_between(w.raw, n, n) =~= Seq::<RowView>::empty());
    assert(Seq::<RowView>::empty().reverse() =~= Seq::<RowView>::empty());
    assert(format_spec(w).display =~= w.display);
}

/// For a fixed session, applying a successful fetch never moves the cursor
/// back: an incremental fetch extends the buffer, and the first full fetch
/// starts from no cursor at all.
pub proof fn lemma_cursor_monotonic(v: DataWindowView, request: FetchRequestView, batch: Seq<RawView>)
    requires
        well_formed(v),
        request.since is Some || v.last_seen is None,
    ensures
        opt_ts_le(v.last_seen, apply_spec(v, request, batch).last_seen),
{
    if request.since is Some {
        assert(timestamps(v.raw + batch) =~= timestamps(v.raw) + timestamps(batch));
        lemma_latest_grows(timestamps(v.raw), timestamps(batch));
    }
}

/// With rows shown oldest first, sequence indices strictly increase from
/// each row to the next.
pub proof fn lemma_ascending_order(v: DataWindowView)
    requires
        well_formed(v),
        v.ascending,
    ensures
        forall|i: int|
            0 <= i < v.display.len() - 1 ==> #[trigger] v.display[i].sequence_index
                < v.display[i + 1].sequence_index,
{
    assert forall|i: int| 0 <= i < v.display.len() - 1 implies #[trigger] v.display[i].sequence_index
        < v.display[i + 1].sequence_index by {
        assert(ascending_rows(v)[i] == v.display[i]);
        assert(ascending_rows(v)[i + 1] == v.display[i + 1]);
    }
}

/// Toggling the sort direction twice restores the window exactly.
pub proof fn lemma_toggle_twice(v: DataWindowView)
    ensures
        toggle_spec(toggle_spec(v)) == v,
{
    lemma_reverse_reverse(v.display);
}

/// Switching from session `a` to another session `b` and back, whenever the
/// polls happen, leaves no row, datapoint or cursor in the window, and a late
/// outcome of a fetch made for `b` is refused.
pub proof fn lemma_session_switch_isolation(
    v: DataWindowView,
    b: Seq<char>,
    t1: int,
    t2: int,
    late: FetchRequestView,
    status: u16,
    has_body: bool,
)
    requires
        v.session_id != b,
        late.session_id == b,
    ensures
        ({
            let w = poll_spec(poll_spec(v, b, t1).0, v.session_id, t2).0;
            &&& w.session_id == v.session_id
            &&& w.display.len() == 0
            &&& w.raw.len() == 0
            &&& w.last_seen is None
            &&& w.formatted_count == 0
            &&& apply_error(w, late, status, has_body) == Some(LoadError::StaleSession)
        }),
{
}

/// Formatting turns every datapoint of the unformatted tail into a row except
/// those whose payload did not decode, and counts all of them as formatted.
pub proof fn lemma_decode_skip_accounting(v: DataWindowView)
    requires
        v.formatted_count <= v.raw.len(),
    ensures
        format_spec(v).display.len() == v.display.len() + decoded_between(
            v.raw,
            v.formatted_count as int,
            v.raw.len() as int,
        ),
        format_spec(v).formatted_count == v.raw.len(),
{
    lemma_rows_between(v.raw, v.formatted_count as int, v.raw.len() as int);
}

/// State of the data window: the selected session's raw buffer and cursor,
/// the display buffer of formatted rows, the sort direction and the page shown.
pub struct DataWindow {
    session_id: String,
    datapoints: Vec<Row2>,
    table_data: Vec<Row>,
    last_row: usize,
    last_datetime: Option<String>,
    first_fetch: bool,
    loaded: bool,
    needs_format: bool,
    last_refresh: u64,
    ascending: bool,
    current_page: usize,
}

impl View for DataWindow {
    type V = DataWindowView;

    closed spec fn view(&self) -> DataWindowView {
        DataWindowView {
            session_id: self.session_id@,
            raw: raw_views(self.datapoints@),
            display: row_views(self.table_data@),
            formatted_count: self.last_row as nat,
            last_seen: self.last_datetime.deep_view(),
            first_fetch: self.first_fetch,
            loaded: self.loaded,
            needs_format: self.needs_format,
            last_refresh: self.last_refresh as int,
            ascending: self.ascending,
            current_page: self.current_page as nat,
        }
    }
}

/// Reverses a vector in place.
fn reverse_in_place<T>(v: &mut Vec<T>)
    ensures
        final(v)@ == old(v)@.reverse(),
{
    let ghost orig = v@;
    let mut out: Vec<T> = Vec::new();
    assert(orig.reverse() =~= out@ + v@.reverse());
    while v.len() > 0
        invariant
            orig.reverse() == out@ + v@.reverse(),
        decreases v@.len(),
    {
        let ghost before = v@;
        let x = v.pop().unwrap();
        assert(before.reverse() =~= seq![x] + v@.reverse());
        out.push(x);
        assert(orig.reverse() =~= out@ + v@.reverse());
    }
    assert(v@.reverse() =~= Seq::<T>::empty());
    assert(orig.reverse() =~= out@);
    *v = out;
}

/// The latest timestamp among `raw`, `None` when it is empty.
fn latest_timestamp(raw: &Vec<Row2>) -> (r: Option<String>)
    ensures
        r.deep_view() == latest(timestamps(raw_views(raw@))),
{
    let ghost ts = timestamps(raw_views(raw@));
    let mut best: Option<String> = None;
    let mut i: usize = 0;
    assert(ts.subrange(0, 0) =~= Seq::<Seq<char>>::empty());
    while i < raw.len()
        invariant
            i <= raw@.len(),
            ts == timestamps(raw_views(raw@)),
            best.deep_view() == latest(ts.subrange(0, i as int)),
        decreases raw@.len() - i,
    {
        assert(ts.subrange(0, i + 1).drop_last() =~= ts.subrange(0, i as int));
        assert(ts[i as int] == raw@[i as int].datetime@);
        let t = &raw[i].datetime;
        best = match best {
            None => Some(t.clone()),
            Some(m) => if timestamp_le(m.as_str(), t.as_str()) {
                Some(t.clone())
            } else {
                Some(m)
            },
        };
        i = i + 1;
    }
    assert(ts.subrange(0, raw@.len() as int) =~= ts);
    best
}

/// Appends to `out` the rows that the datapoints `raw[from..]` give, skipping
/// those whose payload did not decode.
fn append_rows(raw: &Vec<Row2>, from: usize, out: &mut Vec<Row>)
    requires
        from <= raw@.len(),
    ensures
        row_views(final(out)@) == row_views(old(out)@) + rows_between(
            raw_views(raw@),
            from as int,
            raw@.len() as int,
        ),
{
    let ghost rv = raw_views(raw@);
    let ghost start = row_views(out@);
    let mut i: usize = from;
    assert(start + rows_between(rv, from as int, from as int) =~= start);
    while i < raw.len()
        invariant
            from <= i <= raw@.len(),
            rv == raw_views(raw@),
            row_views(out@) == start + rows_between(rv, from as int, i as int),
        decreases raw@.len() - i,
    {
        let ghost before = out@;
        let p = &raw[i];
        assert(rv[i as int] == p@);
        match p.data_blob {
            Some(b) => {
                let row = Row { sequence_index: i, timestamp: p.datetime.clone(), readings: b };
                out.push(row);
                assert(row_views(out@) =~= row_views(before) + seq![row@]);
            },
            None => {},
        }
        assert(start + rows_between(rv, from as int, i + 1) =~= start + rows_between(
            rv,
            from as int,
            i as int,
        ) + crate::records::row_at(rv, i as int));
        i = i + 1;
    }
}

impl DataWindow {
    /// The window's invariant holds.
    pub open spec fn inv(&self) -> bool {
        well_formed(self@)
    }

    /// A window with no session selected, empty buffers and rows shown newest first.
    pub fn new() -> (w: DataWindow)
        ensures
            w.inv(),
            w@.session_id == Seq::<char>::empty(),
            w@.raw.len() == 0,
            w@.display.len() == 0,
            w@.formatted_count == 0,
            w@.last_seen is None,
            w@.first_fetch,
            !w@.loaded,
            !w@.needs_format,
            w@.last_refresh == 0,
            !w@.ascending,
            w@.current_page == 0,
    {
        let w = DataWindow {
            session_id: String::new(),
            datapoints: Vec::new(),
            table_data: Vec::new(),
            last_row: 0,
            last_datetime: None,
            first_fetch: true,
            loaded: false,
            needs_format: false,
            last_refresh: 0,
            ascending: false,
            current_page: 0,
        };
        assert(w@.display.reverse() =~= Seq::<RowView>::empty());
        assert(w@.raw =~= Seq::<RawView>::empty());
        assert(timestamps(w@.raw) =~= Seq::<Seq<char>>::empty());
        w
    }

    /// Decides, at time `now` in milliseconds, whether to fetch datapoints of
    /// `session_id` and which ones. A change of session first resets the
    /// cursor and both buffers.
    pub fn load_data(&mut self, session_id: &String, now: u64) -> (r: Option<FetchRequest>)
        requires
            old(self).inv(),
        ensures
            final(self).inv(),
            final(self)@ == poll_spec(old(self)@, session_id@, now as int).0,
            r.is_some() == poll_spec(old(self)@, session_id@, now as int).1.is_some(),
            r.is_some() ==> r.unwrap()@ == poll_spec(old(self)@, session_id@, now as int).1.unwrap(),
    {
        if *session_id != self.session_id {
            self.session_id = session_id.clone();
            self.datapoints.clear();
            self.table_data.clear();
            self.last_row = 0;
            self.last_datetime = None;
            self.first_fetch = true;
            self.loaded = false;
            self.needs_format = false;
            self.current_page = 0;
            assert(self@.raw =~= Seq::<RawView>::empty());
            assert(self@.display =~= Seq::<RowView>::empty());
            assert(self@.display.reverse() =~= Seq::<RowView>::empty());
            assert(timestamps(self@.raw) =~= Seq::<Seq<char>>::empty());
        }
        let elapsed = now >= self.last_refresh && now - self.last_refresh >= REFRESH_INTERVAL_MS;
        if !(self.first_fetch || !self.loaded || elapsed) {
            return None;
        }
        let since = if self.first_fetch {
            None
        } else {
            match &self.last_datetime {
                Some(t) => Some(t.clone()),
                None => Some(String::from_str("2025-01-01T00:00:00.000")),
            }
        };
        let request = FetchRequest { session_id: self.session_id.clone(), since };
        self.first_fetch = false;
        self.loaded = true;
        self.last_refresh = now;
        Some(request)
    }

    /// Applies the outcome of the fetch `request`: the backend's `status` and,
    /// where it sent one that decoded, the response `body`. A full fetch
    /// replaces the raw buffer and an incremental one extends it; the cursor
    /// becomes the latest timestamp buffered. An outcome for a session that is
    /// no longer selected, a status other than 200 or 201, or a missing body
    /// leaves the window unchanged.
    pub fn apply_fetch(&mut self, request: &FetchRequest, status: u16, body: Option<DataResponse>) -> (r:
        Result<(), LoadError>)
        requires
            old(self).inv(),
        ensures
            final(self).inv(),
            match apply_error(old(self)@, request@, status, body.is_some()) {
                Some(e) => r == Err::<(), LoadError>(e) && final(self)@ == old(self)@,
                None => r is Ok && final(self)@ == apply_spec(
                    old(self)@,
                    request@,
                    raw_views(body.unwrap().datapoints@),
                ),
            },
    {
        if request.session_id != self.session_id {
            return Err(LoadError::StaleSession);
        }
        if status != 200 && status != 201 {
            return Err(LoadError::Status(status));
        }
        match body {
            None => Err(LoadError::MissingBody),
            Some(response) => {
                let mut batch = response.datapoints;
                let ghost old_raw = self.datapoints@;
                let ghost b = batch@;
                if request.since.is_none() {
                    self.datapoints = batch;
                } else {
                    self.datapoints.append(&mut batch);
                    assert(raw_views(self.datapoints@) =~= raw_views(old_raw) + raw_views(b));
                }
                self.last_datetime = latest_timestamp(&self.datapoints);
                self.needs_format = true;
                Ok(())
            },
        }
    }

    /// Formats the datapoints that arrived since the last call into rows and
    /// adds them to the display buffer in the current sort direction. The page
    /// index is brought back into range.
    pub fn format_data(&mut self)
        requires
            old(self).inv(),
        ensures
            final(self).inv(),
            final(self)@ == format_spec(old(self)@),
    {
        let ghost v = self@;
        if self.last_row > self.datapoints.len() {
            self.last_row = 0;
            self.table_data.clear();
        }
        let ghost start = self.last_row as int;
        let ghost base = row_views(self.table_data@);
        if !self.ascending {
            reverse_in_place(&mut self.table_data);
        }
        let ghost asc_base = row_views(self.table_data@);
        assert(asc_base =~= if v.ascending { base } else { base.reverse() });
        append_rows(&self.datapoints, self.last_row, &mut self.table_data);
        let ghost fresh = rows_between(v.raw, start, v.raw.len() as int);
        assert(row_views(self.table_data@) == asc_base + fresh);
        self.last_row = self.datapoints.len();
        if !self.ascending {
            reverse_in_place(&mut self.table_data);
            proof {
                assert(row_views(self.table_data@) =~= (asc_base + fresh).reverse());
                lemma_reverse_concat(base.reverse(), fresh);
                lemma_reverse_reverse(base);
            }
        }
        self.needs_format = false;
        self.current_page = clamp_page_index(self.current_page, self.table_data.len());
        proof {
            lemma_rows_between(v.raw, start, v.raw.len() as int);
            let w = self@;
            assert(ascending_rows(w) == asc_base + fresh) by {
                if !w.ascending {
                    lemma_reverse_reverse(asc_base + fresh);
                }
            }
            if v.formatted_count > v.raw.len() {
                assert(asc_base =~= Seq::<RowView>::empty());
            } else {
                assert(asc_base == ascending_rows(v));
            }
            lemma_increasing_concat(asc_base, fresh, start as nat);
        }
    }

    /// Toggles the sort direction, reversing the rows shown.
    pub fn toggle_direction(&mut self)
        requires
            old(self).inv(),
        ensures
            final(self).inv(),
            final(self)@ == toggle_spec(old(self)@),
    {
        let ghost v = self@;
        reverse_in_place(&mut self.table_data);
        self.ascending = !self.ascending;
        proof {
            assert(self@.display =~= v.display.reverse());
            lemma_reverse_reverse(v.display);
        }
    }

    /// Shows the next page, where there is one.
    pub fn next_page(&mut self)
        requires
            old(self).inv(),
        ensures
            final(self).inv(),
            final(self)@ == next_page_spec(old(self)@),
    {
        let n = page_count(self.table_data.len());
        if n > 0 && self.current_page < n - 1 {
            self.current_page = self.current_page + 1;
        }
    }

    /// Shows the previous page, where there is one.
    pub fn prev_page(&mut self)
        requires
            old(self).inv(),
        ensures
            final(self).inv(),
            final(self)@ == prev_page_spec(old(self)@),
    {
        if self.current_page > 0 {
            self.current_page = self.current_page - 1;
        }
    }

    /// The rows of page `index`; an index past the last page gives the last page.
    pub fn page(&self, index: usize) -> (r: Vec<Row>)
        ensures
            row_views(r@) == self@.display.subrange(
                page_range_spec(self@.display.len(), index as nat).0 as int,
                page_range_spec(self@.display.len(), index as nat).1 as int,
            ),
    {
        let (start, end) = page_range(self.table_data.len(), index);
        let ghost all = row_views(self.table_data@);
        let mut out: Vec<Row> = Vec::new();
        let mut i: usize = start;
        while i < end
            invariant
                start <= i <= end <= self.table_data@.len(),
                all == row_views(self.table_data@),
                row_views(out@) == all.subrange(start as int, i as int),
            decreases end - i,
        {
            let ghost before = out@;
            let c = copy_row(&self.table_data[i]);
            assert(c@ == all[i as int]);
            out.push(c);
            assert(row_views(out@) =~= row_views(before).push(c@));
            assert(all.subrange(start as int, i + 1) =~= all.subrange(start as int, i as int).push(
                all[i as int],
            ));
            i = i + 1;
        }
        out
    }

    /// The rows of the page shown.
    pub fn current_rows(&self) -> (r: Vec<Row>)
        ensures
            row_views(r@) == self@.display.subrange(
                page_range_spec(self@.display.len(), self@.current_page).0 as int,
                page_range_spec(self@.display.len(), self@.current_page).1 as int,
            ),
    {
        self.page(self.current_page)
    }

    /// All rows shown, in the current sort direction.
    pub fn rows(&self) -> (r: &Vec<Row>)
        ensures
            row_views(r@) == self@.display,
    {
        &self.table_data
    }

    /// The datapoints fetched for the selected session.
    pub fn datapoints(&self) -> (r: &Vec<Row2>)
        ensures
            raw_views(r@) == self@.raw,
    {
        &self.datapoints
    }

    /// The session whose data the window holds.
    pub fn session_id(&self) -> (r: &String)
        ensures
            r@ == self@.session_id,
    {
        &self.session_id
    }

    /// The latest timestamp among the fetched datapoints.
    pub fn last_seen(&self) -> (r: Option<String>)
        ensures
            r.deep_view() == self@.last_seen,
    {
        match &self.last_datetime {
            Some(t) => Some(t.clone()),
            None => None,
        }
    }

    /// How many fetched datapoints have been formatted.
    pub fn formatted_count(&self) -> (r: usize)
        ensures
            r == self@.formatted_count,
    {
        self.last_row
    }

    /// Fetched datapoints wait for formatting.
    pub fn needs_format(&self) -> (r: bool)
        ensures
            r == self@.needs_format,
    {
        self.needs_format
    }

    /// Rows are shown oldest first.
    pub fn is_ascending(&self) -> (r: bool)
        ensures
            r == self@.ascending,
    {
        self.ascending
    }

    /// Index of the page shown.
    pub fn current_page(&self) -> (r: usize)
        ensures
            r == self@.current_page,
    {
        self.current_page
    }

    /// Number of pages of rows.
    pub fn page_count(&self) -> (r: usize)
        ensures
            r == page_count_spec(self@.display.len()),
    {
        page_count(self.table_data.len())
    }
}

} // verus!
