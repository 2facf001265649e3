//! Model struct for the query parameters of the card-listing endpoint.

use vstd::prelude::*;
use crate::models::sort_order::{SortOrder, sort_order_chars};

verus! {

/// The query parameters accepted by the card-listing endpoint. The
/// lifecycle of a value is: construct, serialize to a query string, discard.
#[derive(Clone, Debug)]
pub struct ListCardsParameters {
    /// A pagination cursor returned by a previous call to this endpoint.
    /// Provide this to retrieve the next set of results for the original
    /// query.
    pub cursor: String,
    /// Limit results to cards associated with the customer supplied. By
    /// default, all cards owned by the merchant are returned.
    pub customer_id: String,
    /// Includes disabled cards. By default, all enabled cards owned by the
    /// merchant are returned.
    pub include_disabled: bool,
    /// Limit results to cards associated with the reference id supplied.
    pub reference_id: String,
    /// Sorts the returned list by when the card was created with the
    /// specified order. Defaults to ascending.
    pub sort_order: SortOrder,
}

/// The `key=value` pairs that a parameter record serializes to, in the fixed
/// field order: cursor, customer id, include-disabled flag, reference id,
/// sort order. A field contributes a pair only when it differs from its
/// default value. Values are not URL-encoded; preserving that documented
/// limitation is part of this type's contract.
pub open spec fn spec_query_parts(p: ListCardsParameters) -> Seq<Seq<char>> {
    let parts: Seq<Seq<char>> = Seq::empty();
    let parts = if p.cursor@.len() > 0 {
        parts.push("cursor="@ + p.cursor@)
    } else {
        parts
    };
    let parts = if p.customer_id@.len() > 0 {
        parts.push("customer_id="@ + p.customer_id@)
    } else {
        parts
    };
    let parts = if p.include_disabled {
        parts.push("include_disabled=true"@)
    } else {
        parts
    };
    let parts = if p.reference_id@.len() > 0 {
        parts.push("reference_id="@ + p.reference_id@)
    } else {
        parts
    };
    if p.sort_order != SortOrder::Asc {
        parts.push("sort_order="@ + sort_order_chars(p.sort_order))
    } else {
        parts
    }
}

/// The given parts joined by `&`, in order.
pub open spec fn spec_join_amp(parts: Seq<Seq<char>>) -> Seq<char>
    decreases parts.len(),
{
    if parts.len() == 0 {
        Seq::empty()
    } else if parts.len() == 1 {
        parts[0]
    } else {
        spec_join_amp(parts.drop_last()) + seq!['&'] + parts.last()
    }
}

/// The full query string for a parameter record: empty when no field is
/// set, otherwise `?` followed by the `&`-joined pairs.
pub open spec fn spec_query_string(p: ListCardsParameters) -> Seq<char> {
    if spec_query_parts(p).len() == 0 {
        Seq::empty()
    } else {
        seq!['?'] + spec_join_amp(spec_query_parts(p))
    }
}

impl Default for ListCardsParameters {
    fn default() -> (r: Self)
        ensures
            r.cursor@.len() == 0,
            r.customer_id@.len() == 0,
            !r.include_disabled,
            r.reference_id@.len() == 0,
            r.sort_order == SortOrder::Asc,
            spec_query_string(r).len() == 0,
    {
        ListCardsParameters {
            cursor: String::new(),
            customer_id: String::new(),
            include_disabled: false,
            reference_id: String::new(),
            sort_order: SortOrder::Asc,
        }
    }
}

impl ListCardsParameters {
    /// Serializes this record to the query string of the card-listing
    /// endpoint: the empty string when no field differs from its default,
    /// otherwise `?` followed by the `key=value` pairs of the non-default
    /// fields, joined by `&`, in the fixed field order.
    pub fn to_query_string(&self) -> (r: String)
        ensures
            r@ == spec_query_string(*self),
    {
        let mut parts: Vec<String> = Vec::new();
        if !self.cursor.as_str().is_empty() {
            let mut s = String::from_str("cursor=");
            s.append(self.cursor.as_str());
            parts.push(s);
        }
        if !self.customer_id.as_str().is_empty() {
            let mut s = String::from_str("customer_id=");
            s.append(self.customer_id.as_str());
            parts.push(s);
        }
        if self.include_disabled {
            parts.push(String::from_str("include_disabled=true"));
        }
        if !self.reference_id.as_str().is_empty() {
            let mut s = String::from_str("reference_id=");
            s.append(self.reference_id.as_str());
            parts.push(s);
        }
        if self.sort_order != SortOrder::default() {
            let mut s = String::from_str("sort_order=");
            s.append(self.sort_order.as_str());
            parts.push(s);
        }
        proof {
            assert(parts@.map_values(|t: String| t@) =~= spec_query_parts(*self));
        }
        if parts.len() == 0 {
            String::new()
        } else {
            let ghost pv = parts@.map_values(|t: String| t@);
            let mut out = String::from_str("?");
            proof {
                reveal_strlit("?");
                assert(out@ =~= seq!['?']);
            }
            let mut i: usize = 0;
            while i < parts.len()
                invariant
                    0 <= i <= parts.len(),
                    pv == parts@.map_values(|t: String| t@),
                    pv.len() == parts@.len(),
                    out@ == seq!['?'] + spec_join_amp(pv.take(i as int)),
                decreases parts.len() - i,
            {
                if i > 0 {
                    out.append("&");
                    proof {
                        reveal_strlit("&");
                    }
                }
                out.append(parts[i].as_str());
                proof {
                    assert(pv.take(i + 1 as int).drop_last() =~= pv.take(i as int));
                    assert(pv.take(i + 1 as int).last() == pv[i as int]);
                    if i > 0 {
                        assert(out@ == seq!['?'] + (spec_join_amp(pv.take(i as int)) + "&"@
                            + pv[i as int]));
                        assert("&"@ =~= seq!['&']);
                        assert(spec_join_amp(pv.take(i + 1 as int)) == spec_join_amp(
                            pv.take(i as int),
                        ) + seq!['&'] + pv.take(i + 1 as int).last());
                        assert(out@ =~= seq!['?'] + spec_join_amp(pv.take(i + 1 as int)));
                    } else {
                        assert(spec_join_amp(pv.take(1int)) == pv.take(1int)[0]);
                        assert(out@ =~= seq!['?'] + spec_join_amp(pv.take(i + 1 as int)));
                    }
                }
                i += 1;
            }
            proof {
                assert(pv.take(parts@.len() as int) =~= pv);
            }
            out
        }
    }
}

} // verus!
