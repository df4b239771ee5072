//! The local side of the control protocol: control requests and their wire
//! form, and the table that pairs each pending request id with the handle
//! that completes its caller.

use vstd::prelude::*;
use vstd::string::StringExecFns;
use crate::json::{json_quoted, quote};
use crate::table::IdTable;

verus! {

/// The operations the local side can ask of the far end.
#[derive(Debug, Clone)]
pub enum ControlRequestType {
    Interrupt,
    /// Hook configuration, as JSON text.
    Initialize { hooks: Option<String> },
    SetPermissionMode { mode: String },
    SetModel { model: Option<String> },
    RewindFiles { user_message_id: String },
    /// A message for a tool server, as JSON text.
    McpMessage { server_name: String, message: String },
    /// A hook's output, as JSON text.
    HookCallback { callback_id: String, output: String },
}

/// A control request with the id that correlates its response.
#[derive(Debug, Clone)]
pub struct ControlRequest {
    pub request_id: String,
    pub request: ControlRequestType,
}

/// A control response from the far end.
#[derive(Debug, Clone)]
pub struct ControlResponse {
    pub request_id: String,
    pub success: bool,
    /// The whole response frame, as JSON text.
    pub response: Option<Vec<u8>>,
    pub error: Option<String>,
}

/// The `request` object of a control request frame. Requests without a
/// wire form are sent as `null`.
pub open spec fn request_payload(r: ControlRequestType) -> Seq<char> {
    match r {
        ControlRequestType::Interrupt => "{\"subtype\":\"interrupt\"}"@,
        ControlRequestType::SetPermissionMode { mode } =>
            "{\"subtype\":\"set_permission_mode\",\"mode\":"@ + json_quoted(mode@) + "}"@,
        ControlRequestType::SetModel { model } => "{\"subtype\":\"set_model\",\"model\":"@ + match model {
            Some(m) => json_quoted(m@),
            None => "null"@,
        } + "}"@,
        ControlRequestType::RewindFiles { user_message_id } =>
            "{\"subtype\":\"rewind_files\",\"user_message_id\":"@ + json_quoted(user_message_id@) + "}"@,
        _ => "null"@,
    }
}

/// The frame that carries a control request to the far end.
pub open spec fn request_frame(req: ControlRequest) -> Seq<char> {
    "{\"type\":\"control_request\",\"request_id\":"@ + json_quoted(req.request_id@) + ",\"request\":"@
        + request_payload(req.request) + "}"@
}

/// Serialises a control request as the frame sent to the far end.
pub fn encode_request(req: &ControlRequest) -> (r: String)
    ensures
        r@ == request_frame(*req),
{
    let mut payload = String::new();
    match &req.request {
        ControlRequestType::Interrupt => payload.append("{\"subtype\":\"interrupt\"}"),
        ControlRequestType::SetPermissionMode { mode } => {
            payload.append("{\"subtype\":\"set_permission_mode\",\"mode\":");
            payload.append(quote(mode.as_str()).as_str());
            payload.append("}");
        },
        ControlRequestType::SetModel { model } => {
            payload.append("{\"subtype\":\"set_model\",\"model\":");
            match model {
                Some(m) => payload.append(quote(m.as_str()).as_str()),
                None => payload.append("null"),
            }
            payload.append("}");
        },
        ControlRequestType::RewindFiles { user_message_id } => {
            payload.append("{\"subtype\":\"rewind_files\",\"user_message_id\":");
            payload.append(quote(user_message_id.as_str()).as_str());
            payload.append("}");
        },
        _ => payload.append("null"),
    }
    let mut frame = String::from_str("{\"type\":\"control_request\",\"request_id\":");
    frame.append(quote(req.request_id.as_str()).as_str());
    frame.append(",\"request\":");
    frame.append(payload.as_str());
    frame.append("}");
    proof {
        assert(payload@ =~= request_payload(req.request));
        assert(frame@ =~= request_frame(*req));
    }
    frame
}

/// Pending control requests: at most one completion handle per request id.
pub type PendingTable<T> = IdTable<T>;

/// The table `m` after registering `handles[i]` under `ids[i]`, in order.
pub open spec fn registered<T>(m: Map<Seq<char>, T>, ids: Seq<Seq<char>>, handles: Seq<T>) -> Map<Seq<char>, T>
    decreases ids.len(),
{
    if ids.len() == 0 || handles.len() == 0 {
        m
    } else {
        registered(m.insert(ids[0], handles[0]), ids.drop_first(), handles.drop_first())
    }
}

/// The table `m` after taking the ids `order`, in order.
pub open spec fn taken<T>(m: Map<Seq<char>, T>, order: Seq<Seq<char>>) -> Map<Seq<char>, T>
    decreases order.len(),
{
    if order.len() == 0 {
        m
    } else {
        taken(m.remove(order[0]), order.drop_first())
    }
}

proof fn lemma_registered<T>(m: Map<Seq<char>, T>, ids: Seq<Seq<char>>, handles: Seq<T>)
    requires
        ids.len() == handles.len(),
        ids.no_duplicates(),
    ensures
        forall|x: Seq<char>| #[trigger] registered(m, ids, handles).contains_key(x) <==> (m.contains_key(x) || ids.contains(x)),
        forall|j: int| 0 <= j < ids.len() ==> registered(m, ids, handles)[#[trigger] ids[j]] == handles[j],
        forall|x: Seq<char>| m.contains_key(x) && !ids.contains(x) ==> #[trigger] registered(m, ids, handles)[x] == m[x],
    decreases ids.len(),
{
    if ids.len() > 0 {
        let rest = ids.drop_first();
        let m1 = m.insert(ids[0], handles[0]);
        assert(rest.no_duplicates()) by {
            assert forall|a: int, b: int| 0 <= a < rest.len() && 0 <= b < rest.len() && a != b implies rest[a] != rest[b] by {
                assert(rest[a] == ids[a + 1] && rest[b] == ids[b + 1]);
            }
        }
        lemma_registered(m1, rest, handles.drop_first());
        assert(!rest.contains(ids[0])) by {
            if rest.contains(ids[0]) {
                let a = choose|a: int| 0 <= a < rest.len() && rest[a] == ids[0];
                assert(ids[a + 1] == ids[0]);
            }
        }
        let r = registered(m, ids, handles);
        assert(r == registered(m1, rest, handles.drop_first()));
        assert forall|x: Seq<char>| #[trigger] r.contains_key(x) <==> (m.contains_key(x) || ids.contains(x)) by {
            if ids.contains(x) && x != ids[0] {
                let a = choose|a: int| 0 <= a < ids.len() && ids[a] == x;
                assert(rest[a - 1] == x);
            }
            if rest.contains(x) {
                let a = choose|a: int| 0 <= a < rest.len() && rest[a] == x;
                assert(ids[a + 1] == x);
            }
            assert(ids[0] == x ==> ids.contains(x));
        }
        assert forall|j: int| 0 <= j < ids.len() implies r[#[trigger] ids[j]] == handles[j] by {
            if j > 0 {
                assert(rest[j - 1] == ids[j]);
                assert(handles.drop_first()[j - 1] == handles[j]);
            }
        }
        assert forall|x: Seq<char>| m.contains_key(x) && !ids.contains(x) implies #[trigger] r[x] == m[x] by {
            if rest.contains(x) {
                let a = choose|a: int| 0 <= a < rest.len() && rest[a] == x;
                assert(ids[a + 1] == x);
            }
            assert(x != ids[0]) by {
                assert(ids[0] == ids[0]);
                if x == ids[0] {
                    assert(ids.contains(x));
                }
            }
        }
    }
}

proof fn lemma_taken<T>(m: Map<Seq<char>, T>, order: Seq<Seq<char>>)
    ensures
        forall|x: Seq<char>| #[trigger] taken(m, order).contains_key(x) <==> (m.contains_key(x) && !order.contains(x)),
        forall|x: Seq<char>| taken(m, order).contains_key(x) ==> #[trigger] taken(m, order)[x] == m[x],
    decreases order.len(),
{
    if order.len() > 0 {
        let rest = order.drop_first();
        lemma_taken(m.remove(order[0]), rest);
        assert(taken(m, order) == taken(m.remove(order[0]), rest));
        assert forall|x: Seq<char>| #[trigger] taken(m, order).contains_key(x) <==> (m.contains_key(x) && !order.contains(x)) by {
            if rest.contains(x) {
                let a = choose|a: int| 0 <= a < rest.len() && rest[a] == x;
                assert(order[a + 1] == x);
            }
            if order.contains(x) && x != order[0] {
                let a = choose|a: int| 0 <= a < order.len() && order[a] == x;
                assert(rest[a - 1] == x);
            }
            assert(order[0] == x ==> order.contains(x));
        }
    }
}

/// Control correlation: register `n` requests under distinct ids, then
/// deliver their responses in any order. Every registration succeeds; each
/// delivery finds the handle registered under its own id, exactly once, so
/// that afterwards nothing is pending; and an id never registered finds
/// nothing at any point.
pub proof fn lemma_control_correlation<T>(
    ids: Seq<Seq<char>>,
    handles: Seq<T>,
    order: Seq<int>,
    unknown: Seq<char>,
)
    requires
        ids.len() == handles.len(),
        order.len() == ids.len(),
        ids.no_duplicates(),
        forall|k: int| 0 <= k < order.len() ==> 0 <= #[trigger] order[k] < ids.len(),
        forall|a: int, b: int| 0 <= a < b < order.len() ==> #[trigger] order[a] != #[trigger] order[b],
        forall|j: int| 0 <= j < ids.len() ==> #[trigger] order.contains(j),
        !ids.contains(unknown),
    ensures
        forall|i: int| 0 <= i < ids.len() ==> !#[trigger] registered(Map::<Seq<char>, T>::empty(), ids.take(i), handles.take(i)).contains_key(ids[i]),
        ({
            let m0 = registered(Map::<Seq<char>, T>::empty(), ids, handles);
            let keys = order.map_values(|j: int| ids[j]);
            &&& forall|k: int| 0 <= k < keys.len() ==> {
                &&& #[trigger] taken(m0, keys.take(k)).contains_key(keys[k])
                &&& taken(m0, keys.take(k))[keys[k]] == handles[order[k]]
            }
            &&& taken(m0, keys).dom().len() == 0
            &&& forall|k: int| 0 <= k <= keys.len() ==> !#[trigger] taken(m0, keys.take(k)).contains_key(unknown)
        }),
{
    let empty = Map::<Seq<char>, T>::empty();
    assert forall|i: int| 0 <= i < ids.len() implies !#[trigger] registered(empty, ids.take(i), handles.take(i)).contains_key(ids[i]) by {
        let pre = ids.take(i);
        assert(pre.no_duplicates()) by {
            assert forall|a: int, b: int| 0 <= a < pre.len() && 0 <= b < pre.len() && a != b implies pre[a] != pre[b] by {
                assert(pre[a] == ids[a] && pre[b] == ids[b]);
            }
        }
        lemma_registered(empty, pre, handles.take(i));
        if pre.contains(ids[i]) {
            let a = choose|a: int| 0 <= a < pre.len() && pre[a] == ids[i];
            assert(ids[a] == ids[i]);
        }
    }
    let m0 = registered(empty, ids, handles);
    let keys = order.map_values(|j: int| ids[j]);
    lemma_registered(empty, ids, handles);
    assert forall|k: int| 0 <= k < keys.len() implies {
        &&& #[trigger] taken(m0, keys.take(k)).contains_key(keys[k])
        &&& taken(m0, keys.take(k))[keys[k]] == handles[order[k]]
    } by {
        lemma_taken(m0, keys.take(k));
        assert(keys[k] == ids[order[k]]);
        assert(ids.contains(ids[order[k]]));
        if keys.take(k).contains(keys[k]) {
            let a = choose|a: int| 0 <= a < keys.take(k).len() && keys.take(k)[a] == keys[k];
            assert(ids[order[a]] == ids[order[k]]);
            assert(order[a] != order[k]);
        }
    }
    lemma_taken(m0, keys);
    assert forall|x: Seq<char>| !taken(m0, keys).contains_key(x) by {
        if m0.contains_key(x) {
            let j = choose|j: int| 0 <= j < ids.len() && ids[j] == x;
            assert(order.contains(j));
            let k = choose|k: int| 0 <= k < order.len() && order[k] == j;
            assert(keys[k] == x);
        }
    }
    assert(taken(m0, keys).dom() =~= Set::<Seq<char>>::empty());
    assert forall|k: int| 0 <= k <= keys.len() implies !#[trigger] taken(m0, keys.take(k)).contains_key(unknown) by {
        lemma_taken(m0, keys.take(k));
    }
}

} // verus!
