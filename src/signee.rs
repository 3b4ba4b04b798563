//! The canonical signee: the exact text that a request's signature covers.
//!
//! `instruction=<name>`, then each query parameter as `&<key>=<value>` in
//! ascending key order, then (for a body) each field of the body object in
//! ascending key order with surrounding quotes stripped from its value, and
//! last `&timestamp=<ms>&window=<ms>`. An array body yields one such prefix
//! and field list per element, joined by `&` in array order.

use crate::error::Error;
use crate::query::{
    entries_of_pairs, last_value, lemma_entries_of_pairs, lemma_sorted_unique, lookup, sorted_keys, Entry, QueryMap,
};
use crate::text::{decimal_of, decimal_text};
use vstd::prelude::*;

verus! {

/// The message of the error for a body that cannot be signed.
pub const PAYLOAD_NOT_OBJECT: &'static str = "payload must be a JSON object";

/// A request body as the signer reads it: an object, each field with the JSON
/// text of its value (a string value keeps its quotes, `"Bid"`); an array of
/// bodies; or any other JSON value (a scalar or null), which cannot be signed.
pub enum JsonBody {
    Object(Vec<(String, String)>),
    Array(Vec<JsonBody>),
    Scalar,
}

/// `s` without the pair of quotes that encloses it, where it is the JSON
/// text of a string; any other text as it is.
pub open spec fn strip_quotes(s: Seq<char>) -> Seq<char> {
    if s.len() >= 2 && s[0] == '"' && s.last() == '"' {
        s.subrange(1, s.len() - 1)
    } else {
        s
    }
}

/// `&k=v` for each entry, in order.
pub open spec fn pairs_text(s: Seq<Entry>) -> Seq<char>
    decreases s.len(),
{
    if s.len() == 0 {
        Seq::empty()
    } else {
        pairs_text(s.drop_last()) + seq!['&'] + s.last().0 + seq!['='] + s.last().1
    }
}

/// `instruction=<name>` followed by the query parameters.
pub open spec fn query_signee(instruction: Seq<char>, query: Seq<Entry>) -> Seq<char> {
    "instruction="@ + instruction + pairs_text(query)
}

/// The fields of an object body, values stripped of surrounding quotes.
pub open spec fn field_entries(fields: Seq<(String, String)>) -> Seq<Entry> {
    fields.map_values(|e: (String, String)| (e.0@, strip_quotes(e.1@)))
}

/// The parts joined by `&`; `None` where any part is `None`.
pub open spec fn join_parts(parts: Seq<Option<Seq<char>>>) -> Option<Seq<char>>
    decreases parts.len(),
{
    if parts.len() == 0 {
        Some(Seq::empty())
    } else {
        match (join_parts(parts.drop_last()), parts.last()) {
            (Some(prev), Some(last)) => Some(
                if parts.len() == 1 {
                    last
                } else {
                    prev + seq!['&'] + last
                },
            ),
            _ => None,
        }
    }
}

/// The signee of a request with a body, before its timestamp and window;
/// `None` where the body (or an element of it) is neither an object nor an
/// array.
pub open spec fn body_signee(instruction: Seq<char>, query: Seq<Entry>, body: JsonBody) -> Option<Seq<char>>
    decreases body,
{
    match body {
        JsonBody::Object(fields) => Some(
            query_signee(instruction, query) + pairs_text(entries_of_pairs(field_entries(fields@))),
        ),
        JsonBody::Array(items) => join_parts(item_signees(instruction, query, items@)),
        JsonBody::Scalar => None,
    }
}

/// The signee of each element of an array body, in order.
pub open spec fn item_signees(instruction: Seq<char>, query: Seq<Entry>, items: Seq<JsonBody>) -> Seq<Option<Seq<char>>>
    decreases items,
{
    if items.len() == 0 {
        Seq::empty()
    } else {
        item_signees(instruction, query, items.subrange(0, items.len() - 1)).push(
            body_signee(instruction, query, items[items.len() - 1]),
        )
    }
}

proof fn lemma_item_signees(instruction: Seq<char>, query: Seq<Entry>, items: Seq<JsonBody>)
    ensures
        item_signees(instruction, query, items).len() == items.len(),
        forall|j: int|
            0 <= j < items.len() ==> #[trigger] item_signees(instruction, query, items)[j] == body_signee(
                instruction,
                query,
                items[j],
            ),
    decreases items.len(),
{
    if items.len() > 0 {
        let init = items.subrange(0, items.len() - 1);
        lemma_item_signees(instruction, query, init);
        assert forall|j: int| 0 <= j < items.len() - 1 implies init[j] == items[j] by {}
    }
}

/// Builds `instruction=<name>` followed by `&k=v` for each query parameter in
/// ascending key order.
pub fn build_signee_query(instruction: &str, query_params: &QueryMap) -> (r: String)
    ensures
        r@ == query_signee(instruction@, query_params@),
{
    let mut signee = String::from_str("instruction=");
    signee.append(instruction);
    append_entries(&mut signee, query_params);
    signee
}

/// Appends `&k=v` for each entry of `m`, in its order.
fn append_entries(signee: &mut String, m: &QueryMap)
    ensures
        final(signee)@ == old(signee)@ + pairs_text(m@),
{
    let n = m.len();
    let mut i: usize = 0;
    while i < n
        invariant
            n == m@.len(),
            i <= n,
            signee@ == old(signee)@ + pairs_text(m@.subrange(0, i as int)),
        decreases n - i,
    {
        append_pair(signee, m.key_at(i), m.value_at(i));
        assert(m@.subrange(0, i + 1).drop_last() =~= m@.subrange(0, i as int));
        i = i + 1;
    }
    assert(m@.subrange(0, n as int) =~= m@);
}

/// A join of parts is `None` as soon as one part is.
proof fn lemma_join_none(parts: Seq<Option<Seq<char>>>, i: int)
    requires
        0 <= i < parts.len(),
        parts[i] is None,
    ensures
        join_parts(parts) is None,
    decreases parts.len(),
{
    if i < parts.len() - 1 {
        lemma_join_none(parts.drop_last(), i);
    }
}

/// Builds the signee of a request with a body, before its timestamp and
/// window. An object body adds its fields after the query parameters; an
/// array body gives one signee per element, joined by `&` in array order;
/// any other body is refused.
pub fn build_signee_query_and_payload(
    instruction: &str,
    payload: &JsonBody,
    query_params: &QueryMap,
) -> (r: Result<String, Error>)
    ensures
        match body_signee(instruction@, query_params@, *payload) {
            Some(s) => r is Ok && r->Ok_0@ == s,
            None => r matches Err(Error::InvalidRequest(m)) && m@ == PAYLOAD_NOT_OBJECT@,
        },
    decreases payload,
{
    match payload {
        JsonBody::Object(fields) => {
            let ghost fe = field_entries(fields@);
            let mut body = QueryMap::new();
            let mut i: usize = 0;
            while i < fields.len()
                invariant
                    i <= fields@.len(),
                    fe == field_entries(fields@),
                    body@ == entries_of_pairs(fe.subrange(0, i as int)),
                decreases fields@.len() - i,
            {
                let value = strip_quotes_of(fields[i].1.as_str());
                body.insert(fields[i].0.as_str(), value.as_str());
                assert(fe.subrange(0, i + 1).drop_last() =~= fe.subrange(0, i as int));
                i = i + 1;
            }
            assert(fe.subrange(0, fields@.len() as int) =~= fe);
            let mut signee = build_signee_query(instruction, query_params);
            append_entries(&mut signee, &body);
            assert(body_signee(instruction@, query_params@, *payload) == Some(signee@));
            Ok(signee)
        },
        JsonBody::Array(items) => {
            let ghost parts = item_signees(instruction@, query_params@, items@);
            proof {
                lemma_item_signees(instruction@, query_params@, items@);
            }
            let mut joined = String::new();
            let mut i: usize = 0;
            while i < items.len()
                invariant
                    *payload == JsonBody::Array(*items),
                    parts == item_signees(instruction@, query_params@, items@),
                    i <= items@.len(),
                    parts.len() == items@.len(),
                    forall|j: int| 0 <= j < items@.len() ==> #[trigger] parts[j] == body_signee(instruction@, query_params@, items@[j]),
                    join_parts(parts.subrange(0, i as int)) == Some(joined@),
                decreases items@.len() - i,
            {
                proof {
                    vstd::std_specs::vec::axiom_vec_index_decreases(*items, i as int);
                    assert(decreases_to!(*payload => payload->Array_0));
                }
                match build_signee_query_and_payload(instruction, &items[i], query_params) {
                    Ok(part) => {
                        assert(parts.subrange(0, i + 1).drop_last() =~= parts.subrange(0, i as int));
                        if i > 0 {
                            let amp = "&";
                            proof {
                                reveal_strlit("&");
                            }
                            joined.append(amp);
                        }
                        joined.append(part.as_str());
                        i = i + 1;
                    },
                    Err(e) => {
                        proof {
                            assert(parts[i as int] == body_signee(instruction@, query_params@, items@[i as int]));
                            lemma_join_none(parts, i as int);
                            assert(body_signee(instruction@, query_params@, *payload) == join_parts(parts));
                        }
                        return Err(e);
                    },
                }
            }
            assert(parts.subrange(0, items@.len() as int) =~= parts);
            assert(body_signee(instruction@, query_params@, *payload) == join_parts(parts));
            Ok(joined)
        },
        JsonBody::Scalar => Err(Error::InvalidRequest(String::from_str(PAYLOAD_NOT_OBJECT))),
    }
}

/// `&timestamp=<ms>&window=<ms>`, which ends every signee.
pub open spec fn signee_suffix(timestamp: nat, window: nat) -> Seq<char> {
    "&timestamp="@ + decimal_text(timestamp) + "&window="@ + decimal_text(window)
}

/// The whole signee of a request: without a body, the instruction and query;
/// with one, what `body_signee` gives; then the timestamp and window. `None`
/// where the body cannot be signed.
pub open spec fn request_signee(
    instruction: Seq<char>,
    query: Seq<Entry>,
    body: Option<JsonBody>,
    timestamp: nat,
    window: nat,
) -> Option<Seq<char>> {
    match body {
        None => Some(query_signee(instruction, query) + signee_suffix(timestamp, window)),
        Some(b) => match body_signee(instruction, query, b) {
            Some(s) => Some(s + signee_suffix(timestamp, window)),
            None => None,
        },
    }
}

/// Builds `&timestamp=<ms>&window=<ms>`.
pub fn build_signee_suffix(timestamp: u64, window: u32) -> (r: String)
    ensures
        r@ == signee_suffix(timestamp as nat, window as nat),
{
    let mut r = String::from_str("&timestamp=");
    let t = decimal_of(timestamp);
    r.append(t.as_str());
    r.append("&window=");
    let w = decimal_of(window as u64);
    r.append(w.as_str());
    r
}

/// Builds the whole signee of a request: instruction, query parameters, the
/// body's fields if there is a body, then timestamp and window. Fails with
/// `InvalidRequest` exactly when the body is neither an object nor an array
/// of signable bodies.
pub fn build_signee(
    instruction: &str,
    query_params: &QueryMap,
    payload: Option<&JsonBody>,
    timestamp: u64,
    window: u32,
) -> (r: Result<String, Error>)
    ensures
        match request_signee(
            instruction@,
            query_params@,
            match payload {
                Some(b) => Some(*b),
                None => None,
            },
            timestamp as nat,
            window as nat,
        ) {
            Some(s) => r is Ok && r->Ok_0@ == s,
            None => r matches Err(Error::InvalidRequest(m)) && m@ == PAYLOAD_NOT_OBJECT@,
        },
{
    let mut signee = match payload {
        Some(body) => match build_signee_query_and_payload(instruction, body, query_params) {
            Ok(s) => s,
            Err(e) => return Err(e),
        },
        None => build_signee_query(instruction, query_params),
    };
    let suffix = build_signee_suffix(timestamp, window);
    signee.append(suffix.as_str());
    Ok(signee)
}

/// Appends `&key=value`.
fn append_pair(signee: &mut String, key: &str, value: &str)
    ensures
        final(signee)@ == old(signee)@ + seq!['&'] + key@ + seq!['='] + value@,
{
    let amp = "&";
    let eq = "=";
    proof {
        reveal_strlit("&");
        reveal_strlit("=");
    }
    signee.append(amp);
    signee.append(key);
    signee.append(eq);
    signee.append(value);
    assert(signee@ =~= old(signee)@ + seq!['&'] + key@ + seq!['='] + value@);
}

/// Removes the pair of quotes that encloses `s`, where there is one.
pub fn strip_quotes_of(s: &str) -> (r: String)
    ensures
        r@ == strip_quotes(s@),
{
    let n = s.unicode_len();
    if n >= 2 && s.get_char(0) == '"' && s.get_char(n - 1) == '"' {
        String::from_str(s.substring_char(1, n - 1))
    } else {
        String::from_str(s)
    }
}

/// The signee depends on the query parameters only as a map: two ordered
/// query maps that hold the same value under every key give the same signee
/// for the same instruction, body, timestamp and window. In particular
/// repeated calls on the same inputs give the same text.
pub proof fn law_signee_deterministic(
    instruction: Seq<char>,
    q1: Seq<Entry>,
    q2: Seq<Entry>,
    body: Option<JsonBody>,
    timestamp: nat,
    window: nat,
)
    requires
        sorted_keys(q1),
        sorted_keys(q2),
        forall|k: Seq<char>| lookup(q1, k) == lookup(q2, k),
    ensures
        request_signee(instruction, q1, body, timestamp, window) == request_signee(
            instruction,
            q2,
            body,
            timestamp,
            window,
        ),
{
    lemma_sorted_unique(q1, q2);
}

/// Query parameters appear in ascending key order whatever order they were
/// given in: filling the map from two lists of pairs that agree on the last
/// value of every key gives the same sorted entries and the same signee.
pub proof fn law_query_order_independent(instruction: Seq<char>, p1: Seq<Entry>, p2: Seq<Entry>)
    requires
        forall|k: Seq<char>| last_value(p1, k) == last_value(p2, k),
    ensures
        sorted_keys(entries_of_pairs(p1)),
        entries_of_pairs(p1) == entries_of_pairs(p2),
        query_signee(instruction, entries_of_pairs(p1)) == query_signee(instruction, entries_of_pairs(p2)),
{
    lemma_entries_of_pairs(p1);
    lemma_entries_of_pairs(p2);
    assert forall|k: Seq<char>| lookup(entries_of_pairs(p1), k) == lookup(entries_of_pairs(p2), k) by {
        assert(lookup(entries_of_pairs(p1), k) == last_value(p1, k));
        assert(lookup(entries_of_pairs(p2), k) == last_value(p2, k));
    }
    lemma_sorted_unique(entries_of_pairs(p1), entries_of_pairs(p2));
}

/// A two-element array body gives each element's own signee, joined by `&`
/// in array order.
pub proof fn law_array_body_joins_in_order(
    instruction: Seq<char>,
    query: Seq<Entry>,
    items: Vec<JsonBody>,
    first: JsonBody,
    second: JsonBody,
)
    requires
        items@ == seq![first, second],
        body_signee(instruction, query, first) is Some,
        body_signee(instruction, query, second) is Some,
    ensures
        body_signee(instruction, query, JsonBody::Array(items)) == Some(
            body_signee(instruction, query, first)->0 + seq!['&'] + body_signee(instruction, query, second)->0,
        ),
{
    let parts = item_signees(instruction, query, items@);
    lemma_item_signees(instruction, query, items@);
    assert(parts.len() == 2);
    assert(parts[0] == body_signee(instruction, query, first));
    assert(parts[1] == body_signee(instruction, query, second));
    assert(parts.drop_last().drop_last() =~= Seq::<Option<Seq<char>>>::empty());
    assert(join_parts(parts.drop_last().drop_last()) == Some(Seq::<char>::empty()));
    assert(parts.drop_last().last() == parts[0]);
    assert(join_parts(parts.drop_last()) == parts[0]);
}

/// A body that is a scalar or null is never signed.
pub proof fn law_scalar_body_refused(instruction: Seq<char>, query: Seq<Entry>, timestamp: nat, window: nat)
    ensures
        request_signee(instruction, query, Some(JsonBody::Scalar), timestamp, window) is None,
{
}

} // verus!
