use vstd::prelude::*;

verus! {

/// One unit delivered by the transport.
#[derive(Clone, Debug, PartialEq, Eq)]
pub enum RawFrame {
    /// An application event: its type and its payload text.
    DataEvent { event_type: String, payload: String },
    /// A comment line; carries no application data.
    Comment,
    /// The notice that the connection was established.
    ConnectionNotice,
}

/// An event as the caller sees it, in the abstract: its type and its data,
/// absent where the payload was the sentinel.
pub type EventView = (Seq<char>, Option<Seq<char>>);

/// The event type of keep-alive frames.
pub open spec fn keep_alive_type() -> Seq<char> {
    "keep-alive"@
}

/// The payload text that stands for "no data".
pub open spec fn null_sentinel() -> Seq<char> {
    "null"@
}

/// The event that one frame yields under the keep-alive policy, if any.
pub open spec fn frame_output(frame: RawFrame, keep_alive_friendly: bool) -> Option<EventView> {
    match frame {
        RawFrame::DataEvent { event_type, payload } => {
            if event_type@ == keep_alive_type() && !keep_alive_friendly {
                None
            } else if payload@ == null_sentinel() {
                Some((event_type@, None))
            } else {
                Some((event_type@, Some(payload@)))
            }
        },
        RawFrame::Comment => None,
        RawFrame::ConnectionNotice => None,
    }
}

/// The abstract value of an emitted event.
pub open spec fn event_view(e: (String, Option<String>)) -> EventView {
    (
        e.0@,
        match e.1 {
            Some(d) => Some(d@),
            None => None,
        },
    )
}

pub open spec fn events_view(s: Seq<(String, Option<String>)>) -> Seq<EventView> {
    s.map_values(|e: (String, Option<String>)| event_view(e))
}

/// The events that a sequence of frames yields, in arrival order.
pub open spec fn filtered(frames: Seq<RawFrame>, keep_alive_friendly: bool) -> Seq<EventView>
    decreases frames.len(),
{
    if frames.len() == 0 {
        Seq::empty()
    } else {
        let rest = filtered(frames.drop_last(), keep_alive_friendly);
        match frame_output(frames.last(), keep_alive_friendly) {
            Some(e) => rest.push(e),
            None => rest,
        }
    }
}

/// Normalizes one frame: drops non-data frames and, unless the caller accepts
/// them, keep-alive events; turns the sentinel payload into absent data.
pub fn filter_frame(frame: &RawFrame, keep_alive_friendly: bool) -> (r: Option<(String, Option<String>)>)
    ensures
        match r {
            Some(e) => frame_output(*frame, keep_alive_friendly) == Some(event_view(e)),
            None => frame_output(*frame, keep_alive_friendly) is None,
        },
{
    match frame {
        RawFrame::DataEvent { event_type, payload } => {
            if *event_type == "keep-alive".to_owned() && !keep_alive_friendly {
                return None;
            }
            if *payload == "null".to_owned() {
                Some((event_type.clone(), None))
            } else {
                Some((event_type.clone(), Some(payload.clone())))
            }
        },
        RawFrame::Comment => None,
        RawFrame::ConnectionNotice => None,
    }
}

/// Normalizes a transport item: frames go through `filter_frame`, transport
/// errors pass through unchanged.
pub fn filter_item<E>(item: Result<RawFrame, E>, keep_alive_friendly: bool) -> (r: Option<
    Result<(String, Option<String>), E>,
>)
    ensures
        match item {
            Ok(frame) => match r {
                Some(Ok(e)) => frame_output(frame, keep_alive_friendly) == Some(event_view(e)),
                Some(Err(_)) => false,
                None => frame_output(frame, keep_alive_friendly) is None,
            },
            Err(err) => r == Some(Err::<(String, Option<String>), E>(err)),
        },
{
    match item {
        Ok(frame) => match filter_frame(&frame, keep_alive_friendly) {
            Some(e) => Some(Ok(e)),
            None => None,
        },
        Err(err) => Some(Err(err)),
    }
}

/// Normalizes a whole sequence of frames, keeping the order of arrival.
pub fn filter_frames(frames: &Vec<RawFrame>, keep_alive_friendly: bool) -> (r: Vec<
    (String, Option<String>),
>)
    ensures
        events_view(r@) == filtered(frames@, keep_alive_friendly),
{
    let mut out: Vec<(String, Option<String>)> = Vec::new();
    let mut i: usize = 0;
    while i < frames.len()
        invariant
            i <= frames@.len(),
            events_view(out@) == filtered(frames@.subrange(0, i as int), keep_alive_friendly),
        decreases frames@.len() - i,
    {
        let ghost before = out@;
        assert(frames@.subrange(0, i as int + 1).drop_last() == frames@.subrange(0, i as int));
        match filter_frame(&frames[i], keep_alive_friendly) {
            Some(e) => {
                out.push(e);
                assert(events_view(out@) == events_view(before).push(event_view(e)));
            },
            None => {},
        }
        i = i + 1;
    }
    assert(frames@.subrange(0, frames@.len() as int) == frames@);
    out
}

/// Filtering keeps no memory from one frame to the next: the events of two
/// sequences put end to end are the events of the first followed by those of
/// the second.
pub proof fn lemma_filter_stateless(a: Seq<RawFrame>, b: Seq<RawFrame>, keep_alive_friendly: bool)
    ensures
        filtered(a + b, keep_alive_friendly) == filtered(a, keep_alive_friendly) + filtered(
            b,
            keep_alive_friendly,
        ),
    decreases b.len(),
{
    if b.len() == 0 {
        assert(a + b == a);
        assert(filtered(a, keep_alive_friendly) + filtered(b, keep_alive_friendly) == filtered(
            a,
            keep_alive_friendly,
        ));
    } else {
        lemma_filter_stateless(a, b.drop_last(), keep_alive_friendly);
        assert((a + b).drop_last() == a + b.drop_last());
        assert((a + b).last() == b.last());
        let fa = filtered(a, keep_alive_friendly);
        let fb = filtered(b.drop_last(), keep_alive_friendly);
        match frame_output(b.last(), keep_alive_friendly) {
            Some(e) => {
                assert((fa + fb).push(e) == fa + fb.push(e));
            },
            None => {},
        }
    }
}

/// A kept data event whose payload is the sentinel `"null"` carries no data;
/// any other payload is carried verbatim.
pub proof fn lemma_sentinel(event_type: String, payload: String, keep_alive_friendly: bool)
    requires
        !(event_type@ == keep_alive_type() && !keep_alive_friendly),
    ensures
        payload@ == null_sentinel() ==> frame_output(
            RawFrame::DataEvent { event_type, payload },
            keep_alive_friendly,
        ) == Some((event_type@, None::<Seq<char>>)),
        payload@ != null_sentinel() ==> frame_output(
            RawFrame::DataEvent { event_type, payload },
            keep_alive_friendly,
        ) == Some((event_type@, Some(payload@))),
{
}

/// A keep-alive event is dropped unless the caller accepts keep-alives, and
/// is then kept as an ordinary event, whatever its payload.
pub proof fn lemma_keep_alive(event_type: String, payload: String)
    requires
        event_type@ == keep_alive_type(),
    ensures
        frame_output(RawFrame::DataEvent { event_type, payload }, false) is None,
        frame_output(RawFrame::DataEvent { event_type, payload }, true) == Some(
            (
                event_type@,
                if payload@ == null_sentinel() {
                    None
                } else {
                    Some(payload@)
                },
            ),
        ),
{
}

/// Comments and connection notices yield no event, whatever the policy.
pub proof fn lemma_non_data_dropped(keep_alive_friendly: bool)
    ensures
        frame_output(RawFrame::Comment, keep_alive_friendly) is None,
        frame_output(RawFrame::ConnectionNotice, keep_alive_friendly) is None,
{
}

/// Filtering keeps the surviving frames in their order of arrival: the k-th
/// event comes from the frame at `idx[k]`, these positions strictly rise, and
/// every frame that yields an event is among them.
pub proof fn lemma_order_kept(frames: Seq<RawFrame>, keep_alive_friendly: bool) -> (idx: Seq<int>)
    ensures
        idx.len() == filtered(frames, keep_alive_friendly).len(),
        forall|k: int|
            0 <= k < idx.len() ==> 0 <= #[trigger] idx[k] < frames.len() && frame_output(
                frames[idx[k]],
                keep_alive_friendly,
            ) == Some(filtered(frames, keep_alive_friendly)[k]),
        forall|k: int, l: int| 0 <= k < l < idx.len() ==> idx[k] < idx[l],
        forall|i: int|
            0 <= i < frames.len() && (#[trigger] frame_output(frames[i], keep_alive_friendly))
                is Some ==> exists|k: int| 0 <= k < idx.len() && idx[k] == i,
    decreases frames.len(),
{
    if frames.len() == 0 {
        Seq::empty()
    } else {
        let init = frames.drop_last();
        let prev = lemma_order_kept(init, keep_alive_friendly);
        let n = frames.len() - 1;
        assert forall|i: int| 0 <= i < n implies frames[i] == init[i] by {}
        match frame_output(frames.last(), keep_alive_friendly) {
            Some(e) => {
                let idx = prev.push(n);
                assert forall|i: int|
                    0 <= i < frames.len() && (#[trigger] frame_output(
                        frames[i],
                        keep_alive_friendly,
                    )) is Some implies exists|k: int| 0 <= k < idx.len() && idx[k] == i by {
                    if i == n {
                        assert(idx[idx.len() - 1] == i);
                    } else {
                        assert(frame_output(init[i], keep_alive_friendly) is Some);
                        let k = choose|k: int| 0 <= k < prev.len() && prev[k] == i;
                        assert(idx[k] == i);
                    }
                }
                idx
            },
            None => {
                assert forall|i: int|
                    0 <= i < frames.len() && (#[trigger] frame_output(
                        frames[i],
                        keep_alive_friendly,
                    )) is Some implies exists|k: int| 0 <= k < prev.len() && prev[k] == i by {
                    assert(i != n);
                    assert(frame_output(init[i], keep_alive_friendly) is Some);
                }
                prev
            },
        }
    }
}

} // verus!
