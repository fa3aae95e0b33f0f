use vstd::prelude::*;
use vstd::string::*;

use crate::text::seq_join;
use crate::tiktok::live::TikTokError;

verus! {

/// One cookie as `name=value`.
pub open spec fn cookie_pair(p: (String, String)) -> Seq<char> {
    p.0@ + "="@ + p.1@
}

/// The `Cookie` header for a set of cookies: each as `name=value`, in the
/// given order, separated by `; `.
pub open spec fn cookie_header_text(pairs: Seq<(String, String)>) -> Seq<char> {
    seq_join(pairs.map_values(|p: (String, String)| cookie_pair(p)), "; "@)
}

/// Builds the `Cookie` header sent with a live-page request.
pub fn cookie_header(pairs: &Vec<(String, String)>) -> (res: String)
    ensures
        res@ == cookie_header_text(pairs@),
{
    let ghost all = pairs@.map_values(|p: (String, String)| cookie_pair(p));
    let mut res = String::new();
    let n = pairs.len();
    let mut i: usize = 0;
    while i < n
        invariant
            n == pairs@.len(),
            all == pairs@.map_values(|p: (String, String)| cookie_pair(p)),
            i <= n,
            res@ == seq_join(all.take(i as int), "; "@),
        decreases n - i,
    {
        proof {
            assert(all.take(i + 1).drop_last() =~= all.take(i as int));
            assert(all.take(i + 1).last() == cookie_pair(pairs@[i as int]));
        }
        if i > 0 {
            res.append("; ");
        }
        let p = &pairs[i];
        res.append(p.0.as_str());
        res.append("=");
        res.append(p.1.as_str());
        i = i + 1;
    }
    proof {
        assert(all.take(n as int) =~= all);
    }
    res
}

/// The inner HTML of the element whose `id` attribute is `id` in the
/// document `tl` parses from `body`; `None` when there is no such element.
pub uninterp spec fn html_inner_by_id(body: Seq<char>, id: Seq<char>) -> Option<Seq<char>>;

/// Calls `tl::parse` with the default options, then `VDom::get_element_by_id`
/// and the node's `inner_html`. Claimed: `None` exactly when the document
/// is too long for `tl` (more than `u32::MAX` bytes, which `tl::parse`
/// refuses), else `html_inner_by_id` of the body and id.
#[verifier::external_body]
fn element_inner_html(body: &str, id: &str) -> (res: Option<Option<String>>)
    ensures
        res is None <==> body.spec_bytes().len() > u32::MAX,
        res matches Some(found) ==> match found {
            Some(h) => html_inner_by_id(body@, id@) == Some(h@),
            None => html_inner_by_id(body@, id@) is None,
        },
{
    let dom = tl::parse(body, tl::ParserOptions::default()).ok()?;
    let parser = dom.parser();
    Some(
        dom.get_element_by_id(id).and_then(|handle| handle.get(parser)).map(
            |node| node.inner_html(parser).to_string(),
        ),
    )
}

/// The id of the element that holds a live page's state.
pub open spec fn state_element_id() -> Seq<char> {
    "SIGI_STATE"@
}

/// The JSON text of the page state embedded in a live page, or why there is
/// none.
pub fn page_state_json(body: &str) -> (res: Result<String, TikTokError>)
    ensures
        body.spec_bytes().len() > u32::MAX ==> res == Err::<String, TikTokError>(
            TikTokError::PageTooLarge,
        ),
        body.spec_bytes().len() <= u32::MAX ==> match html_inner_by_id(
            body@,
            state_element_id(),
        ) {
            Some(h) => res matches Ok(j) && j@ == h,
            None => res == Err::<String, TikTokError>(TikTokError::MissingState),
        },
{
    let id = "SIGI_STATE";
    proof {
        assert(id@ == state_element_id());
    }
    match element_inner_html(body, id) {
        None => Err(TikTokError::PageTooLarge),
        Some(None) => Err(TikTokError::MissingState),
        Some(Some(html)) => Ok(html),
    }
}

} // verus!
