use vstd::prelude::*;

use crate::types::{requests_view, Handle, Key, Request, RequestView};

verus! {

/// The requests that insert `text` at the cursor of the active context.
pub open spec fn insert_requests(active: Option<Handle>, text: Seq<char>) -> Seq<RequestView> {
    match active {
        Some(h) => seq![RequestView::CommitString { context: h, serial: 0, text }],
        None => seq![],
    }
}

/// The requests for a special key on the active context. Backspace deletes
/// one unit on each side of the cursor and commits the deletion; tab is
/// committed as a tab character; shift sends an all-zero modifier state.
pub open spec fn key_requests(active: Option<Handle>, key: Key) -> Seq<RequestView> {
    match active {
        Some(h) => match key {
            Key::Backspace => seq![
                RequestView::DeleteSurroundingText { context: h, index: 1, length: 1 },
                RequestView::CommitString { context: h, serial: 0, text: Seq::empty() },
            ],
            Key::Tab => seq![RequestView::CommitString { context: h, serial: 0, text: "\t"@ }],
            Key::LeftShift => seq![
                RequestView::Modifiers {
                    context: h,
                    serial: 0,
                    depressed: 0,
                    latched: 0,
                    locked: 0,
                    group: 0,
                },
            ],
            Key::Other => seq![],
        },
        None => seq![],
    }
}

/// Translates text input into requests on the active context.
pub fn insert_text(active: Option<Handle>, text: &str) -> (r: Vec<Request>)
    ensures
        requests_view(r@) == insert_requests(active, text@),
{
    let mut r: Vec<Request> = Vec::new();
    if let Some(h) = active {
        r.push(Request::CommitString { context: h, serial: 0, text: text.to_owned() });
    }
    assert(requests_view(r@) =~= insert_requests(active, text@));
    r
}

/// Translates a special key into requests on the active context.
pub fn press_key(active: Option<Handle>, key: Key) -> (r: Vec<Request>)
    ensures
        requests_view(r@) == key_requests(active, key),
{
    let mut r: Vec<Request> = Vec::new();
    if let Some(h) = active {
        match key {
            Key::Backspace => {
                r.push(Request::DeleteSurroundingText { context: h, index: 1, length: 1 });
                r.push(Request::CommitString { context: h, serial: 0, text: String::new() });
            },
            Key::Tab => {
                r.push(Request::CommitString { context: h, serial: 0, text: "\t".to_owned() });
            },
            Key::LeftShift => {
                r.push(
                    Request::Modifiers {
                        context: h,
                        serial: 0,
                        depressed: 0,
                        latched: 0,
                        locked: 0,
                        group: 0,
                    },
                );
            },
            Key::Other => {},
        }
    }
    assert(requests_view(r@) =~= key_requests(active, key));
    r
}

/// With no active context every action translates to no request at all.
pub proof fn lemma_no_context_no_requests(text: Seq<char>, key: Key)
    ensures
        insert_requests(None, text) == Seq::<RequestView>::empty(),
        key_requests(None, key) == Seq::<RequestView>::empty(),
{
    assert(insert_requests(None, text) =~= Seq::<RequestView>::empty());
    assert(key_requests(None, key) =~= Seq::<RequestView>::empty());
}

} // verus!
