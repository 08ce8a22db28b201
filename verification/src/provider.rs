//! The logical recipe-provider boundary: the plain-value shape of raw
//! provider records, the normalizer that turns a raw record into a uniform
//! recipe summary, and the comma-joined query parameters the provider
//! expects.

use vstd::prelude::*;

verus! {

/// A raw recipe record as the provider sends it: each required field may be
/// absent.
pub struct RawRecipe {
    pub title: Option<String>,
    pub summary: Option<String>,
    pub source_url: Option<String>,
}

/// One entry of the provider's ingredient-match list: the identifier used for
/// the follow-up detail fetch, absent when the record violates the provider
/// contract.
pub struct MatchRecord {
    pub id: Option<i64>,
}

/// A provider call failed at the transport level or sent an unreadable
/// payload.
pub struct TransportError;

/// A raw record missed one of the three required fields.
pub struct MissingField;

/// The normalized result of a provider call.
pub struct RecipeSummary {
    pub dish: String,
    pub summary: String,
    pub source_url: String,
}

/// What `voca_rs::strip::strip_tags` returns on a text: the text content with
/// all HTML markup removed.
pub uninterp spec fn strip_tags_of(s: Seq<char>) -> Seq<char>;

/// Relies on `voca_rs::strip::strip_tags`: it removes HTML tags, comments and
/// doctype declarations from the text and keeps the text content; the result
/// depends on the input text alone.
#[verifier::external_body]
fn strip_markup(s: &str) -> (r: String)
    ensures
        r@ == strip_tags_of(s@),
{
    voca_rs::strip::strip_tags(s)
}

/// A raw record carries all three required fields.
pub open spec fn raw_complete(raw: RawRecipe) -> bool {
    raw.title is Some && raw.summary is Some && raw.source_url is Some
}

/// `rs` is the normalization of `raw`: the title and source URL verbatim, the
/// summary with its markup stripped.
pub open spec fn normalized(raw: RawRecipe, rs: RecipeSummary) -> bool {
    &&& raw.title matches Some(t) && rs.dish@ == t@
    &&& raw.summary matches Some(sm) && rs.summary@ == strip_tags_of(sm@)
    &&& raw.source_url matches Some(u) && rs.source_url@ == u@
}

/// Normalizes a raw provider record: reads `title` verbatim as the dish,
/// strips the HTML markup from `summary`, and reads `sourceUrl` verbatim as
/// the source URL. A record with any of the three fields absent is a
/// provider-contract violation and is rejected.
pub fn obtain_information(raw: RawRecipe) -> (r: Result<RecipeSummary, MissingField>)
    ensures
        raw_complete(raw) <==> r is Ok,
        r matches Ok(rs) ==> normalized(raw, rs),
{
    match raw {
        RawRecipe { title: Some(title), summary: Some(summary), source_url: Some(source_url) } => {
            let stripped = strip_markup(summary.as_str());
            Ok(RecipeSummary { dish: title, summary: stripped, source_url })
        },
        _ => Err(MissingField),
    }
}

/// The tail of a comma-joined list: a comma and an element, repeated for the
/// elements from position `i` on.
pub open spec fn join_rest(items: Seq<Seq<char>>, i: int) -> Seq<char>
    decreases items.len() - i,
{
    if i < 0 || i >= items.len() {
        Seq::empty()
    } else {
        seq![','] + items[i] + join_rest(items, i + 1)
    }
}

/// The elements joined with single commas between them, as the provider's
/// query parameters expect.
pub open spec fn join_comma_spec(items: Seq<Seq<char>>) -> Seq<char> {
    if items.len() == 0 {
        Seq::empty()
    } else {
        items[0] + join_rest(items, 1)
    }
}

/// Joins the items with commas between them.
pub fn join_comma(items: &Vec<String>) -> (r: String)
    ensures
        r@ == join_comma_spec(items@.map_values(|s: String| s@)),
{
    let ghost views = items@.map_values(|s: String| s@);
    if items.len() == 0 {
        let r = String::new();
        proof {
            assert(r@ =~= join_comma_spec(views));
        }
        return r;
    }
    let mut r = items[0].clone();
    proof {
        assert(views[0] == items@[0]@);
    }
    let mut i: usize = 1;
    while i < items.len()
        invariant
            views == items@.map_values(|s: String| s@),
            1 <= i <= items@.len(),
            join_comma_spec(views) == r@ + join_rest(views, i as int),
        decreases items@.len() - i,
    {
        proof {
            assert(views[i as int] == items@[i as int]@);
        }
        crate::text::push_char(&mut r, ',');
        let it: &String = &items[i];
        r.append(it.as_str());
        proof {
            assert(join_rest(views, i as int) =~= seq![','] + views[i as int] + join_rest(
                views,
                i + 1,
            ));
            assert(join_comma_spec(views) =~= r@ + join_rest(views, i + 1));
        }
        i = i + 1;
    }
    proof {
        assert(join_rest(views, items@.len() as int) =~= Seq::<char>::empty());
        assert(join_comma_spec(views) =~= r@);
    }
    r
}

} // verus!
