use vstd::prelude::*;

verus! {

/// One persisted observation: when it was ingested, which channel, and the
/// subscriber delta that was reported for it.
///
/// `time` is the ingestion wall-clock time in microseconds since the Unix
/// epoch.
#[derive(Clone, Copy, Debug, PartialEq, Eq, Structural)]
pub struct ChannelRow {
    pub time: i64,
    pub id: i32,
    pub sub: i32,
}

/// A decoded message: channel ids and subscriber deltas, paired by position.
#[derive(Debug)]
pub struct SubMessage {
    pub ids: Vec<i32>,
    pub subs: Vec<i32>,
}

/// The rows that a message with these lists yields when ingested at `time`:
/// one per subscriber delta, in list order, all sharing the timestamp.
pub open spec fn rows_of(ids: Seq<i32>, subs: Seq<i32>, time: i64) -> Seq<ChannelRow> {
    Seq::new(subs.len(), |i: int| ChannelRow { time, id: ids[i], sub: subs[i] })
}

/// Relies on chrono's `Local::now` and `DateTime::timestamp_micros`: the
/// current wall-clock time as microseconds since the Unix epoch. Nothing is
/// promised of the value.
#[verifier::external_body]
fn now_micros() -> i64 {
    chrono::Local::now().timestamp_micros()
}

/// Expands a message into rows that all carry `time`.
pub fn rows_at(msg: &SubMessage, time: i64) -> (r: Vec<ChannelRow>)
    requires
        msg.subs@.len() <= msg.ids@.len(),
    ensures
        r@ == rows_of(msg.ids@, msg.subs@, time),
{
    let mut out: Vec<ChannelRow> = Vec::new();
    let n: usize = msg.subs.len();
    let mut i: usize = 0;
    while i < n
        invariant
            n == msg.subs@.len(),
            n <= msg.ids@.len(),
            i <= n,
            out@ == rows_of(msg.ids@, msg.subs@, time).take(i as int),
        decreases n - i,
    {
        let row = ChannelRow { time, id: msg.ids[i], sub: msg.subs[i] };
        out.push(row);
        i = i + 1;
        proof {
            assert(out@ =~= rows_of(msg.ids@, msg.subs@, time).take(i as int));
        }
    }
    proof {
        assert(out@ =~= rows_of(msg.ids@, msg.subs@, time));
    }
    out
}

/// Expands a message into rows stamped with the current wall-clock time: one
/// row per subscriber delta, in list order, all with the same timestamp.
pub fn msg_to_vec(msg: SubMessage) -> (r: Vec<ChannelRow>)
    requires
        msg.subs@.len() <= msg.ids@.len(),
    ensures
        exists|t: i64| r@ == #[trigger] rows_of(msg.ids@, msg.subs@, t),
{
    let time: i64 = now_micros();
    rows_at(&msg, time)
}

} // verus!
