//! The fixed textual envelope placed around an operator-supplied action
//! string before transmission. Building is total and verbatim: no escaping,
//! no validation, any action text is interpolated between a constant prefix
//! and a constant suffix.

use vstd::prelude::*;
use vstd::string::StringExecFns;

verus! {

/// The constant text that precedes the action inside an outgoing payload.
pub open spec fn envelope_prefix() -> Seq<char> {
    "{\"General\":{\"action\":\""@
}

/// The constant text that follows the action inside an outgoing payload.
pub open spec fn envelope_suffix() -> Seq<char> {
    "\"}}"@
}

/// The payload built for an action: prefix, the action verbatim, suffix.
pub open spec fn build_spec(action: Seq<char>) -> Seq<char> {
    envelope_prefix() + action + envelope_suffix()
}

/// The constant prefix as an executable string.
pub fn template_begin() -> (r: &'static str)
    ensures
        r@ == envelope_prefix(),
{
    "{\"General\":{\"action\":\""
}

/// The constant suffix as an executable string.
pub fn template_end() -> (r: &'static str)
    ensures
        r@ == envelope_suffix(),
{
    "\"}}"
}

/// Wraps an action string in the fixed envelope, verbatim.
pub fn build(action: &str) -> (r: String)
    ensures
        r@ == build_spec(action@),
{
    let mut payload = String::from_str(template_begin());
    payload.append(action);
    payload.append(template_end());
    payload
}

/// A character the envelope format itself uses as structure. An action text
/// holding one of these is interpolated verbatim all the same; the payload is
/// then structurally invalid for the peer, by design.
pub open spec fn is_envelope_delimiter(c: char) -> bool {
    c == '"' || c == '{' || c == '}'
}

/// What extracting the text between the known prefix and suffix yields: the
/// middle of the payload when it is long enough and carries both, nothing
/// otherwise.
pub open spec fn extract_spec(payload: Seq<char>) -> Option<Seq<char>> {
    if payload.len() >= envelope_prefix().len() + envelope_suffix().len()
        && payload.subrange(0, envelope_prefix().len() as int) == envelope_prefix()
        && payload.subrange(
        payload.len() - envelope_suffix().len(),
        payload.len() as int,
    ) == envelope_suffix() {
        Some(
            payload.subrange(
                envelope_prefix().len() as int,
                payload.len() - envelope_suffix().len(),
            ),
        )
    } else {
        None
    }
}

/// Building round-trips: extracting the text between the known prefix and
/// suffix from a built payload yields exactly the action that was wrapped,
/// for every action free of the envelope's delimiter characters.
pub proof fn lemma_build_extract_round_trip(action: Seq<char>)
    requires
        forall|i: int| 0 <= i < action.len() ==> !is_envelope_delimiter(action[i]),
    ensures
        extract_spec(build_spec(action)) == Some(action),
{
    let p = build_spec(action);
    assert(p.subrange(0, envelope_prefix().len() as int) =~= envelope_prefix());
    assert(p.subrange(p.len() - envelope_suffix().len(), p.len() as int)
        =~= envelope_suffix());
    assert(p.subrange(envelope_prefix().len() as int, p.len() - envelope_suffix().len())
        =~= action);
}

/// Extracts the action text between the known prefix and suffix of a
/// payload, or nothing when the payload does not carry them.
pub fn extract_action(payload: &str) -> (r: Option<String>)
    ensures
        match r {
            Some(t) => extract_spec(payload@) == Some(t@),
            None => extract_spec(payload@) is None,
        },
{
    let pre = template_begin();
    let suf = template_end();
    let n = payload.unicode_len();
    let pre_len = pre.unicode_len();
    let suf_len = suf.unicode_len();
    if n < pre_len || n - pre_len < suf_len {
        return None;
    }
    let mut i: usize = 0;
    while i < pre_len
        invariant
            0 <= i <= pre_len,
            n == payload@.len(),
            pre@ == envelope_prefix(),
            pre_len == envelope_prefix().len(),
            suf_len == envelope_suffix().len(),
            pre_len + suf_len <= n,
            forall|j: int| 0 <= j < i ==> payload@[j] == envelope_prefix()[j],
        decreases pre_len - i,
    {
        if payload.get_char(i) != pre.get_char(i) {
            proof {
                assert(payload@.subrange(0, pre_len as int)[i as int] == payload@[i as int]);
            }
            return None;
        }
        i += 1;
    }
    assert(payload@.subrange(0, pre_len as int) =~= envelope_prefix());
    let mut k: usize = 0;
    while k < suf_len
        invariant
            0 <= k <= suf_len,
            n == payload@.len(),
            suf@ == envelope_suffix(),
            pre_len == envelope_prefix().len(),
            suf_len == envelope_suffix().len(),
            pre_len + suf_len <= n,
            payload@.subrange(0, pre_len as int) == envelope_prefix(),
            forall|j: int| 0 <= j < k ==> payload@[n - suf_len + j] == envelope_suffix()[j],
        decreases suf_len - k,
    {
        if payload.get_char(n - suf_len + k) != suf.get_char(k) {
            proof {
                assert(payload@.subrange(n - suf_len, n as int)[k as int]
                    == payload@[n - suf_len + k]);
            }
            return None;
        }
        k += 1;
    }
    assert(payload@.subrange(n - suf_len, n as int) =~= envelope_suffix());
    let mid = payload.substring_char(pre_len, n - suf_len);
    Some(mid.to_owned())
}

} // verus!
