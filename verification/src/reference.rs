//! External references (URLs) attached to tickets: what a reference
//! request must hold, the label a reference gets when none is given, and
//! the log entries it writes.
use vstd::prelude::*;
use crate::activity::{ActivityEventType, CreateActivityInput, LinkKind};
use crate::errors::{ApiError, validation};
use crate::ids::{Oid, hex_of};
use crate::text::{chars_of, has_prefix, starts_with, string_of, trim_chars, trimmed};
use crate::user::{opt_id_string, opt_id_text};

verus! {

/// A stored reference. `created_at` is in milliseconds.
#[derive(Debug, Clone)]
pub struct TicketReference {
    pub id: Option<Oid>,
    pub group_id: Oid,
    pub ticket_id: Oid,
    pub label: String,
    pub url: String,
    pub created_by: Oid,
    pub created_at: i64,
}

/// What a reference is created from.
#[derive(Debug)]
pub struct CreateReferenceInput {
    pub group_id: Oid,
    pub ticket_id: Oid,
    pub label: String,
    pub url: String,
    pub created_by: Oid,
}

/// Body of `POST /groups/{id}/tickets/{ticket_id}/references`.
#[derive(Debug)]
pub struct CreateReferenceRequest {
    pub label: Option<String>,
    pub url: String,
}

/// A reference as clients see it, with its creator's current name.
#[derive(Debug)]
pub struct TicketReferenceResponse {
    pub id: String,
    pub group_id: String,
    pub ticket_id: String,
    pub label: String,
    pub url: String,
    pub created_by: String,
    pub created_by_name: String,
    pub created_at: i64,
}

pub const MAX_URL_LEN: usize = 2000;

pub const MAX_LABEL_LEN: usize = 200;

/// A reference needs an http(s) URL of at most 2000 characters (checked
/// on the trimmed text) and, when given, a label of at most 200 characters.
pub fn validate_create(input: &CreateReferenceRequest) -> (r: Result<(), ApiError>)
    ensures
        ({
            let url = trimmed(input.url@);
            let scheme_ok = starts_with(url, "http://"@) || starts_with(url, "https://"@);
            let label_ok = match input.label {
                Some(l) => l@.len() <= 200,
                None => true,
            };
            &&& r is Ok <==> (url.len() > 0 && scheme_ok && url.len() <= 2000 && label_ok)
            &&& url.len() == 0 ==> (r matches Err(e) && e.is_validation("url is required"@))
            &&& url.len() > 0 && !scheme_ok ==> (r matches Err(e) && e.is_validation(
                "url must start with http:// or https://"@,
            ))
            &&& url.len() > 0 && scheme_ok && url.len() > 2000 ==> (r matches Err(e)
                && e.is_validation("url must be at most 2000 characters"@))
            &&& url.len() > 0 && scheme_ok && url.len() <= 2000 && !label_ok ==> (r matches Err(e)
                && e.is_validation("label must be at most 200 characters"@))
        }),
{
    let url = trim_chars(input.url.as_str());
    if url.len() == 0 {
        return Err(validation("url is required"));
    }
    if !(has_prefix(&url, "http://") || has_prefix(&url, "https://")) {
        return Err(validation("url must start with http:// or https://"));
    }
    if url.len() > MAX_URL_LEN {
        return Err(validation("url must be at most 2000 characters"));
    }
    if let Some(label) = &input.label {
        let chars = chars_of(label.as_str());
        if chars.len() > MAX_LABEL_LEN {
            return Err(validation("label must be at most 200 characters"));
        }
    }
    Ok(())
}

/// `u` without a leading `https://` or, failing that, `http://`.
pub open spec fn without_scheme(u: Seq<char>) -> Seq<char> {
    if starts_with(u, "https://"@) {
        u.skip(8)
    } else if starts_with(u, "http://"@) {
        u.skip(7)
    } else {
        u
    }
}

/// Where the host ends: before the first `/`, `?` or `#`.
pub open spec fn is_host_end(c: char) -> bool {
    c == '/' || c == '?' || c == '#'
}

/// The position of the first host-ending character of `s`, or its length.
pub open spec fn host_end(s: Seq<char>) -> nat
    decreases s.len(),
{
    if s.len() == 0 {
        0
    } else if is_host_end(s[0]) {
        0
    } else {
        1 + host_end(s.drop_first())
    }
}

/// The label a URL gets when none is given: its host (with any port or
/// credentials), i.e. what lies between the scheme and the first `/`, `?`
/// or `#`.
pub open spec fn url_label(u: Seq<char>) -> Seq<char> {
    without_scheme(u).take(host_end(without_scheme(u)) as int)
}

proof fn lemma_host_end(s: Seq<char>, i: int)
    requires
        0 <= i <= s.len(),
        forall|k: int| 0 <= k < i ==> !is_host_end(#[trigger] s[k]),
        i == s.len() || is_host_end(s[i]),
    ensures
        host_end(s) == i,
    decreases i,
{
    if i > 0 {
        assert forall|k: int| 0 <= k < i - 1 implies !is_host_end(#[trigger] s.drop_first()[k]) by {
            assert(s.drop_first()[k] == s[k + 1]);
        }
        if i < s.len() {
            assert(s.drop_first()[i - 1] == s[i]);
        }
        lemma_host_end(s.drop_first(), i - 1);
    }
}

pub fn derive_label(url: &str) -> (label: String)
    ensures
        label@ == url_label(url@),
{
    proof {
        reveal_strlit("https://");
        reveal_strlit("http://");
    }
    let u = chars_of(url);
    let start: usize = if has_prefix(&u, "https://") {
        8
    } else if has_prefix(&u, "http://") {
        7
    } else {
        0
    };
    assert(u@.skip(start as int) == without_scheme(url@));
    let mut end = start;
    while end < u.len() && !(u[end] == '/' || u[end] == '?' || u[end] == '#')
        invariant
            start <= end <= u@.len(),
            u@ == url@,
            forall|k: int| start <= k < end ==> !is_host_end(#[trigger] u@[k]),
        decreases u.len() - end,
    {
        end = end + 1;
    }
    proof {
        let s = u@.skip(start as int);
        assert forall|k: int| 0 <= k < end - start implies !is_host_end(#[trigger] s[k]) by {
            assert(s[k] == u@[start + k]);
        }
        if end < u.len() {
            assert(s[end - start] == u@[end as int]);
        }
        lemma_host_end(s, end - start);
        assert(s.take(end - start) =~= u@.subrange(start as int, end as int));
    }
    string_of(&u.as_slice()[start..end])
}

/// The label a new reference gets: the given one, trimmed, unless that is
/// blank; otherwise the URL's host.
pub open spec fn chosen_label(label: Option<String>, url: Seq<char>) -> Seq<char> {
    match label {
        Some(l) => if trimmed(l@).len() > 0 {
            trimmed(l@)
        } else {
            url_label(url)
        },
        None => url_label(url),
    }
}

/// What a reference request stores: the chosen label and the URL as sent.
pub fn plan_reference(group_id: Oid, ticket_id: Oid, user_id: Oid, input: CreateReferenceRequest) -> (r:
    CreateReferenceInput)
    ensures
        r.group_id == group_id,
        r.ticket_id == ticket_id,
        r.created_by == user_id,
        r.url == input.url,
        r.label@ == chosen_label(input.label, input.url@),
{
    let label = match &input.label {
        Some(l) => {
            let t = trim_chars(l.as_str());
            if t.len() > 0 {
                string_of(t.as_slice())
            } else {
                derive_label(input.url.as_str())
            }
        },
        None => derive_label(input.url.as_str()),
    };
    CreateReferenceInput { group_id, ticket_id, label, url: input.url, created_by: user_id }
}

/// The log entry a reference change writes: the label as the value the
/// ticket now has (added) or had (removed).
pub fn reference_entry(
    group_id: Oid,
    ticket_id: Oid,
    actor_id: Oid,
    event_type: ActivityEventType,
    label: &str,
) -> (e: CreateActivityInput)
    ensures
        e.group_id == group_id,
        e.ticket_id == ticket_id,
        e.actor_id == actor_id,
        e.event_type == event_type,
        e.comment_id is None,
        e.link_kind == Some(LinkKind::Reference),
        event_type == ActivityEventType::LinkAdded ==> (e.old_value is None && (e.new_value matches Some(
            v,
        ) && v@ == label@)),
        event_type != ActivityEventType::LinkAdded ==> (e.new_value is None && (e.old_value matches Some(
            v,
        ) && v@ == label@)),
{
    let text = label.to_string();
    let (old_value, new_value) = if event_type == ActivityEventType::LinkAdded {
        (None, Some(text))
    } else {
        (Some(text), None)
    };
    CreateActivityInput {
        group_id,
        ticket_id,
        actor_id,
        event_type,
        old_value,
        new_value,
        comment_id: None,
        link_kind: Some(LinkKind::Reference),
    }
}

/// A reference as clients see it.
pub fn reference_response(reference: TicketReference, created_by_name: String) -> (r:
    TicketReferenceResponse)
    ensures
        r.id@ == opt_id_text(reference.id),
        r.group_id@ == hex_of(reference.group_id.value as nat, 24),
        r.ticket_id@ == hex_of(reference.ticket_id.value as nat, 24),
        r.label == reference.label,
        r.url == reference.url,
        r.created_by@ == hex_of(reference.created_by.value as nat, 24),
        r.created_by_name == created_by_name,
        r.created_at == reference.created_at,
{
    TicketReferenceResponse {
        id: opt_id_string(reference.id),
        group_id: reference.group_id.to_hex(),
        ticket_id: reference.ticket_id.to_hex(),
        label: reference.label,
        url: reference.url,
        created_by: reference.created_by.to_hex(),
        created_by_name,
        created_at: reference.created_at,
    }
}

} // verus!
