//! Assembly of the headers sent with every API call.
//!
//! A [`Headers`] value is a mapping from header-name strings to header-value
//! strings. Keys are case-sensitive exactly as stored; HTTP treats header
//! names case-insensitively, but this mapping does not normalize case
//! itself — the transport conversion is where ASCII uppercase is folded.
//! Construction seeds the five baseline entries; callers may overwrite them
//! or add their own, and nothing is validated until the set is converted to
//! its transport form, where every entry is checked and the first invalid
//! one is reported.

use vstd::prelude::*;
use crate::http::transport::{
    header_map_count, header_map_entries, header_map_insert, lower_seq, new_header_map,
    no_entries, try_header_name, try_header_value, valid_header_name, valid_header_value,
};
use crate::models::errors::ApiError;

verus! {

/// The API version sent by default with every request.
pub const DEFAULT_SQUARE_VERSION: &'static str = "2022-02-16";

/// The user agent sent when the caller configures none of its own.
pub const DEFAULT_USER_AGENT: &'static str = "square-api-client-rust";

/// The pairs of a sequence of owned string pairs, as character sequences.
pub open spec fn entry_views(s: Seq<(String, String)>) -> Seq<(Seq<char>, Seq<char>)> {
    s.map_values(|p: (String, String)| (p.0@, p.1@))
}

/// The mapping that a sequence of entries denotes: each pair inserted in
/// order, so a later entry wins over an earlier one with the same key.
pub open spec fn map_of(s: Seq<(Seq<char>, Seq<char>)>) -> Map<Seq<char>, Seq<char>>
    decreases s.len(),
{
    if s.len() == 0 {
        Map::empty()
    } else {
        map_of(s.drop_last()).insert(s.last().0, s.last().1)
    }
}

/// No two entries share a key.
pub open spec fn distinct_keys(s: Seq<(Seq<char>, Seq<char>)>) -> bool {
    forall|i: int, j: int| 0 <= i < j < s.len() ==> s[i].0 != s[j].0
}

/// No two entries share a key once ASCII uppercase is folded away.
pub open spec fn distinct_lowered_keys(s: Seq<(Seq<char>, Seq<char>)>) -> bool {
    forall|i: int, j: int| 0 <= i < j < s.len() ==> lower_seq(s[i].0) != lower_seq(s[j].0)
}

/// The transport collection that a sequence of entries converts to when
/// every entry is valid: each pair inserted in order under its lowercased
/// name.
pub open spec fn transport_of(s: Seq<(Seq<char>, Seq<char>)>) -> Map<Seq<char>, Seq<char>>
    decreases s.len(),
{
    if s.len() == 0 {
        Map::empty()
    } else {
        transport_of(s.drop_last()).insert(lower_seq(s.last().0), s.last().1)
    }
}

/// Both halves of an entry pass transport validation.
pub open spec fn entry_ok(e: (Seq<char>, Seq<char>)) -> bool {
    valid_header_name(e.0) && valid_header_value(e.1)
}

/// The error `e` is the one owed for position `i` of `ev`: every earlier
/// entry is valid, and `e` names entry `i`'s key — and, when the key itself
/// is a legal name, also its value.
pub open spec fn reports_first_invalid(
    ev: Seq<(Seq<char>, Seq<char>)>,
    i: int,
    e: ApiError,
) -> bool {
    &&& 0 <= i < ev.len()
    &&& forall|j: int| 0 <= j < i ==> entry_ok(ev[j])
    &&& if !valid_header_name(ev[i].0) {
        e matches ApiError::InvalidHeaderName { name } && name@ == ev[i].0
    } else {
        &&& !valid_header_value(ev[i].1)
        &&& e matches ApiError::InvalidHeaderValue { name, value } && name@ == ev[i].0
            && value@ == ev[i].1
    }
}

proof fn lemma_map_of_contains(s: Seq<(Seq<char>, Seq<char>)>, k: Seq<char>)
    ensures
        map_of(s).dom().contains(k) <==> exists|i: int| 0 <= i < s.len() && s[i].0 == k,
    decreases s.len(),
{
    if s.len() > 0 {
        lemma_map_of_contains(s.drop_last(), k);
        assert(forall|i: int| 0 <= i < s.len() - 1 ==> s.drop_last()[i] == s[i]);
        if s.last().0 == k {
            assert(s[s.len() - 1].0 == k);
        }
        if exists|i: int| 0 <= i < s.len() && s[i].0 == k {
            let i = choose|i: int| 0 <= i < s.len() && s[i].0 == k;
            if i < s.len() - 1 {
                assert(s.drop_last()[i].0 == k);
            }
        }
    }
}

proof fn lemma_map_of_value(s: Seq<(Seq<char>, Seq<char>)>, i: int)
    requires
        distinct_keys(s),
        0 <= i < s.len(),
    ensures
        map_of(s).dom().contains(s[i].0),
        map_of(s)[s[i].0] == s[i].1,
    decreases s.len(),
{
    if i < s.len() - 1 {
        assert(forall|j: int| 0 <= j < s.len() - 1 ==> s.drop_last()[j] == s[j]);
        lemma_map_of_value(s.drop_last(), i);
        assert(s.last().0 != s[i].0);
    }
}

proof fn lemma_map_of_len(s: Seq<(Seq<char>, Seq<char>)>)
    requires
        distinct_keys(s),
    ensures
        map_of(s).dom().finite(),
        map_of(s).len() == s.len(),
    decreases s.len(),
{
    broadcast use vstd::set::axiom_set_insert_len;

    if s.len() > 0 {
        assert(forall|j: int| 0 <= j < s.len() - 1 ==> s.drop_last()[j] == s[j]);
        lemma_map_of_len(s.drop_last());
        lemma_map_of_contains(s.drop_last(), s.last().0);
        assert(!map_of(s.drop_last()).dom().contains(s.last().0));
    }
}

proof fn lemma_map_of_remove(s: Seq<(Seq<char>, Seq<char>)>, idx: int)
    requires
        distinct_keys(s),
        0 <= idx < s.len(),
    ensures
        map_of(s.remove(idx)) == map_of(s).remove(s[idx].0),
    decreases s.len(),
{
    if idx == s.len() - 1 {
        assert(s.remove(idx) =~= s.drop_last());
        lemma_map_of_contains(s.drop_last(), s[idx].0);
        assert(forall|j: int| 0 <= j < s.len() - 1 ==> s.drop_last()[j] == s[j]);
        assert(!map_of(s.drop_last()).dom().contains(s[idx].0));
        assert(map_of(s.drop_last()).insert(s[idx].0, s[idx].1).remove(s[idx].0) =~= map_of(
            s.drop_last(),
        ));
    } else {
        let dl = s.drop_last();
        assert(forall|j: int| 0 <= j < s.len() - 1 ==> dl[j] == s[j]);
        lemma_map_of_remove(dl, idx);
        assert(s.remove(idx).drop_last() =~= dl.remove(idx));
        assert(s.remove(idx).last() == s.last());
        assert(s.last().0 != s[idx].0);
        assert(map_of(s.remove(idx)) == map_of(dl.remove(idx)).insert(s.last().0, s.last().1));
        assert(map_of(dl).remove(s[idx].0).insert(s.last().0, s.last().1) =~= map_of(dl).insert(
            s.last().0,
            s.last().1,
        ).remove(s[idx].0));
    }
}

proof fn lemma_transport_of_contains(s: Seq<(Seq<char>, Seq<char>)>, k: Seq<char>)
    ensures
        transport_of(s).dom().contains(k) <==> exists|i: int|
            0 <= i < s.len() && lower_seq(s[i].0) == k,
    decreases s.len(),
{
    if s.len() > 0 {
        lemma_transport_of_contains(s.drop_last(), k);
        assert(forall|i: int| 0 <= i < s.len() - 1 ==> s.drop_last()[i] == s[i]);
        if lower_seq(s.last().0) == k {
            assert(lower_seq(s[s.len() - 1].0) == k);
        }
        if exists|i: int| 0 <= i < s.len() && lower_seq(s[i].0) == k {
            let i = choose|i: int| 0 <= i < s.len() && lower_seq(s[i].0) == k;
            if i < s.len() - 1 {
                assert(lower_seq(s.drop_last()[i].0) == k);
            }
        }
    }
}

/// When no two keys collide after case folding, the transport collection
/// holds exactly one entry per input entry: it is keyed by the lowercased
/// name and holds the value unchanged.
pub proof fn lemma_transport_of_exact(s: Seq<(Seq<char>, Seq<char>)>)
    requires
        distinct_lowered_keys(s),
    ensures
        transport_of(s).dom().finite(),
        transport_of(s).len() == s.len(),
        forall|i: int| 0 <= i < s.len() ==> #[trigger] transport_of(s).dom().contains(
            lower_seq(s[i].0),
        ) && transport_of(s)[lower_seq(s[i].0)] == s[i].1,
    decreases s.len(),
{
    broadcast use vstd::set::axiom_set_insert_len;

    if s.len() > 0 {
        let dl = s.drop_last();
        assert(forall|j: int| 0 <= j < s.len() - 1 ==> dl[j] == s[j]);
        lemma_transport_of_exact(dl);
        lemma_transport_of_contains(dl, lower_seq(s.last().0));
        assert(!transport_of(dl).dom().contains(lower_seq(s.last().0)));
        assert(forall|i: int| 0 <= i < s.len() - 1 ==> lower_seq(#[trigger] s[i].0) != lower_seq(
            s[s.len() - 1].0,
        ));
    }
}

/// The law behind header conversion on the common case: when the stored
/// keys are pairwise distinct and already lowercase, conversion keeps every
/// entry under its own name, with the name and the value unchanged, and
/// yields exactly one entry per input entry.
pub proof fn lemma_transport_preserves_entries(s: Seq<(Seq<char>, Seq<char>)>)
    requires
        distinct_keys(s),
        forall|i: int| 0 <= i < s.len() ==> lower_seq(#[trigger] s[i].0) == s[i].0,
    ensures
        transport_of(s).dom().finite(),
        transport_of(s).len() == s.len(),
        forall|i: int| 0 <= i < s.len() ==> #[trigger] transport_of(s).dom().contains(s[i].0)
            && transport_of(s)[s[i].0] == s[i].1,
{
    assert(distinct_lowered_keys(s));
    lemma_transport_of_exact(s);
    assert(forall|i: int| 0 <= i < s.len() ==> #[trigger] transport_of(s).dom().contains(s[i].0)
        && transport_of(s)[s[i].0] == s[i].1) by {
        assert(forall|i: int| 0 <= i < s.len() ==> transport_of(s).dom().contains(
            lower_seq(#[trigger] s[i].0),
        ) && transport_of(s)[lower_seq(s[i].0)] == s[i].1);
    }
}

/// The set of headers to send with an outgoing request: a mapping from
/// header-name string to header-value string. Keys are case-sensitive as
/// stored; insertion order is kept internally but carries no meaning beyond
/// settling which entry a conversion error reports first.
#[derive(Debug)]
pub struct Headers {
    entries: Vec<(String, String)>,
}

impl View for Headers {
    type V = Map<Seq<char>, Seq<char>>;

    open spec fn view(&self) -> Map<Seq<char>, Seq<char>> {
        map_of(self.entries_view())
    }
}

impl Headers {
    /// No two stored entries share a key.
    #[verifier::type_invariant]
    spec fn wf(self) -> bool {
        distinct_keys(self.entries_view())
    }

    /// The stored entries, in order, as character sequences.
    pub closed spec fn entries_view(self) -> Seq<(Seq<char>, Seq<char>)> {
        entry_views(self.entries@)
    }

    /// A header set with no entries at all.
    pub fn new() -> (r: Headers)
        ensures
            r@ == no_entries(),
            r.entries_view().len() == 0,
    {
        let r = Headers { entries: Vec::new() };
        proof {
            assert(r.entries_view() =~= Seq::empty());
        }
        r
    }

    /// How many entries the set holds.
    pub fn len(&self) -> (r: usize)
        ensures
            r == self@.len(),
    {
        proof {
            use_type_invariant(&*self);
            lemma_map_of_len(self.entries_view());
        }
        self.entries.len()
    }

    /// The value stored under exactly the given key, if any.
    pub fn get(&self, header_name: &str) -> (r: Option<&String>)
        ensures
            match r {
                Some(p) => self@.dom().contains(header_name@) && p@ == self@[header_name@],
                None => !self@.dom().contains(header_name@),
            },
    {
        proof {
            use_type_invariant(&*self);
        }
        let ghost ev = self.entries_view();
        let name = header_name.to_owned();
        let n = self.entries.len();
        let mut i: usize = 0;
        while i < n
            invariant
                0 <= i <= n,
                n == self.entries@.len(),
                name@ == header_name@,
                ev == self.entries_view(),
                distinct_keys(ev),
                forall|j: int| 0 <= j < i ==> (#[trigger] ev[j]).0 != header_name@,
            decreases n - i,
        {
            if self.entries[i].0 == name {
                proof {
                    assert(ev[i as int].0 == header_name@);
                    lemma_map_of_value(ev, i as int);
                }
                return Some(&self.entries[i].1);
            }
            i += 1;
        }
        proof {
            lemma_map_of_contains(ev, header_name@);
        }
        None
    }

    /// Whether the set holds an entry under exactly the key `user-agent`.
    /// Case matters: this checks the literal key, nothing else.
    pub fn has_user_agent(&self) -> (r: bool)
        ensures
            r == self@.dom().contains("user-agent"@),
    {
        self.get("user-agent").is_some()
    }

    /// Sets or overwrites the `user-agent` entry, returning the value it
    /// replaces, if any.
    pub fn set_user_agent(&mut self, user_agent: &str) -> (prev: Option<String>)
        ensures
            final(self)@ == old(self)@.insert("user-agent"@, user_agent@),
            final(self)@.dom().contains("user-agent"@),
            match prev {
                Some(p) => old(self)@.dom().contains("user-agent"@) && p@ == old(
                    self,
                )@["user-agent"@],
                None => !old(self)@.dom().contains("user-agent"@),
            },
    {
        self.insert("user-agent", user_agent)
    }

    /// Sets or overwrites an entry, returning the value it replaces, if
    /// any. No validation happens here — any string is accepted, and only
    /// the transport conversion decides legality.
    pub fn insert(&mut self, header_name: &str, header_value: &str) -> (prev: Option<String>)
        ensures
            final(self)@ == old(self)@.insert(header_name@, header_value@),
            final(self).entries_view().len() <= old(self).entries_view().len() + 1,
            match prev {
                Some(p) => old(self)@.dom().contains(header_name@) && p@ == old(
                    self,
                )@[header_name@],
                None => !old(self)@.dom().contains(header_name@),
            },
    {
        proof {
            use_type_invariant(&*self);
        }
        let mut v: Vec<(String, String)> = Vec::new();
        core::mem::swap(&mut v, &mut self.entries);
        let ghost old_ev = entry_views(v@);
        let name = header_name.to_owned();
        let n = v.len();
        let mut i: usize = 0;
        let mut found: bool = false;
        let mut idx: usize = 0;
        while i < n
            invariant
                0 <= i <= n,
                n == v@.len(),
                name@ == header_name@,
                old_ev == entry_views(v@),
                distinct_keys(old_ev),
                !found ==> forall|j: int| 0 <= j < i ==> (#[trigger] old_ev[j]).0 != header_name@,
                found ==> idx < i && old_ev[idx as int].0 == header_name@,
            decreases n - i,
        {
            if !found && v[i].0 == name {
                found = true;
                idx = i;
            }
            i += 1;
        }
        let mut prev: Option<String> = None;
        if found {
            proof {
                lemma_map_of_value(old_ev, idx as int);
                lemma_map_of_remove(old_ev, idx as int);
            }
            let pair = v.remove(idx);
            prev = Some(pair.1);
        } else {
            proof {
                lemma_map_of_contains(old_ev, header_name@);
            }
        }
        let ghost kept = entry_views(v@);
        v.push((name, header_value.to_owned()));
        proof {
            assert(kept.push((header_name@, header_value@)) =~= entry_views(v@));
            assert(entry_views(v@).len() == kept.len() + 1);
            assert(entry_views(v@).drop_last() =~= kept);
            assert(entry_views(v@).last() == (header_name@, header_value@));
            if found {
                assert(kept =~= old_ev.remove(idx as int));
                assert(forall|a: int, b: int|
                    0 <= a < b < kept.len() ==> (#[trigger] kept[a]).0 != (#[trigger] kept[b]).0);
                assert(forall|a: int| 0 <= a < kept.len() ==> (#[trigger] kept[a]).0
                    != header_name@) by {
                    assert(forall|a: int| 0 <= a < old_ev.len() && a != idx as int ==> (
                    #[trigger] old_ev[a]).0 != header_name@);
                }
                assert(map_of(entry_views(v@)) == map_of(kept).insert(header_name@, header_value@));
                assert(map_of(old_ev).remove(header_name@).insert(header_name@, header_value@)
                    =~= map_of(old_ev).insert(header_name@, header_value@));
            } else {
                assert(kept == old_ev);
                assert(map_of(entry_views(v@)) == map_of(old_ev).insert(
                    header_name@,
                    header_value@,
                ));
            }
            assert(distinct_keys(entry_views(v@)));
        }
        self.entries = v;
        prev
    }

    /// The default Authorization header value: the word `Bearer`, a space,
    /// and the bearer token — or nothing after the space when no credential
    /// is configured, which downstream services then reject on their own.
    pub fn default_authorization(bearer_token: Option<&str>) -> (r: String)
        ensures
            bearer_token matches Some(t) ==> r@ == "Bearer "@ + t@,
            bearer_token is None ==> r@ == "Bearer "@,
    {
        let mut s = String::from_str("Bearer ");
        match bearer_token {
            Some(t) => {
                s.append(t);
            },
            None => {},
        }
        s
    }

    /// A header set seeded with the five baseline entries: content type,
    /// API version, accept, the given user agent, and an Authorization
    /// value bearing the given token (or none). Exactly five entries come
    /// out, and nothing is read from the process environment — the caller
    /// composes the configuration and passes it in.
    pub fn with_config(user_agent: &str, bearer_token: Option<&str>) -> (r: Headers)
        ensures
            r@ == spec_default_headers(
                user_agent@,
                match bearer_token {
                    Some(t) => "Bearer "@ + t@,
                    None => "Bearer "@,
                },
            ),
            r@.len() == 5,
            r.entries_view().len() <= 5,
            bearer_token is None ==> r@["Authorization"@] == "Bearer "@,
    {
        let mut h = Headers::new();
        h.insert("Content-Type", "application/json");
        h.insert("Square-Version", DEFAULT_SQUARE_VERSION);
        h.insert("accept", "application/json");
        h.insert("user-agent", user_agent);
        let authorization = Headers::default_authorization(bearer_token);
        h.insert("Authorization", authorization.as_str());
        proof {
            lemma_default_headers_len(
                user_agent@,
                match bearer_token {
                    Some(t) => "Bearer "@ + t@,
                    None => "Bearer "@,
                },
            );
        }
        h
    }

    /// Converts the mapping into the validated transport header collection.
    ///
    /// Every entry is validated independently: the name must be a legal
    /// header-field-name token and the value a legal header-field-value
    /// byte sequence. Conversion succeeds exactly when every entry is
    /// valid; it fails fast on the first invalid entry in storage order,
    /// reporting that entry's key (and, for a value error, the value). On
    /// success the collection holds each entry under its lowercased name,
    /// a later entry overriding an earlier one whose name lowercases the
    /// same way. The set must hold at most 4096 entries: past that the
    /// transport collection's fixed capacity could make it abort the
    /// process instead of returning an error.
    pub fn to_transport_form(&self) -> (r: Result<reqwest::header::HeaderMap, ApiError>)
        requires
            self.entries_view().len() <= 4096,
        ensures
            r is Ok <==> forall|i: int|
                0 <= i < self.entries_view().len() ==> entry_ok(#[trigger] self.entries_view()[i]),
            r matches Ok(m) ==> header_map_entries(m) == transport_of(self.entries_view()),
            r matches Err(e) ==> exists|i: int|
                reports_first_invalid(self.entries_view(), i, e),
    {
        let ghost ev = self.entries_view();
        let mut m = new_header_map();
        let n = self.entries.len();
        let mut i: usize = 0;
        while i < n
            invariant
                0 <= i <= n,
                n == self.entries@.len(),
                ev == self.entries_view(),
                ev.len() <= 4096,
                forall|j: int| 0 <= j < i ==> entry_ok(#[trigger] ev[j]),
                header_map_entries(m) == transport_of(ev.take(i as int)),
                header_map_count(m) <= i,
            decreases n - i,
        {
            proof {
                assert(ev[i as int] == (self.entries@[i as int].0@, self.entries@[i as int].1@));
            }
            match try_header_name(self.entries[i].0.as_str()) {
                None => {
                    let e = ApiError::InvalidHeaderName { name: self.entries[i].0.clone() };
                    proof {
                        assert(!entry_ok(ev[i as int]));
                        assert(reports_first_invalid(ev, i as int, e));
                    }
                    return Err(e);
                },
                Some(hn) => {
                    match try_header_value(self.entries[i].1.as_str()) {
                        None => {
                            let e = ApiError::InvalidHeaderValue {
                                name: self.entries[i].0.clone(),
                                value: self.entries[i].1.clone(),
                            };
                            proof {
                                assert(!entry_ok(ev[i as int]));
                                assert(reports_first_invalid(ev, i as int, e));
                            }
                            return Err(e);
                        },
                        Some(hv) => {
                            header_map_insert(&mut m, hn, hv);
                            proof {
                                assert(ev.take(i as int + 1).drop_last() =~= ev.take(i as int));
                                assert(ev.take(i as int + 1).last() == ev[i as int]);
                                assert(transport_of(ev.take(i as int + 1)) == transport_of(
                                    ev.take(i as int),
                                ).insert(lower_seq(ev[i as int].0), ev[i as int].1));
                            }
                        },
                    }
                },
            }
            i += 1;
        }
        proof {
            assert(ev.take(n as int) =~= ev);
        }
        Ok(m)
    }
}

impl Default for Headers {
    /// A header set with the five baseline entries, the default user agent,
    /// and no credential: the Authorization value is exactly `Bearer `
    /// followed by nothing. Reading a credential from the process
    /// environment is the caller's business; whoever composes the process
    /// configuration passes the token to [`Headers::with_config`] instead.
    fn default() -> (r: Headers)
        ensures
            r@ == spec_default_headers("square-api-client-rust"@, "Bearer "@),
            r@.len() == 5,
            r.entries_view().len() <= 5,
            r@.dom().contains("user-agent"@),
            r@["Authorization"@] == "Bearer "@,
    {
        let r = Headers::with_config(DEFAULT_USER_AGENT, None);
        proof {
            lemma_default_headers_len("square-api-client-rust"@, "Bearer "@);
        }
        r
    }
}

/// The mapping that a freshly seeded header set denotes, given the user
/// agent and the Authorization value.
pub open spec fn spec_default_headers(user_agent: Seq<char>, authorization: Seq<char>) -> Map<
    Seq<char>,
    Seq<char>,
> {
    Map::empty().insert("Content-Type"@, "application/json"@).insert(
        "Square-Version"@,
        "2022-02-16"@,
    ).insert("accept"@, "application/json"@).insert("user-agent"@, user_agent).insert(
        "Authorization"@,
        authorization,
    )
}

/// A freshly seeded header set holds exactly the five baseline keys —
/// content type, API version, accept, user agent, authorization — and
/// nothing else, whatever the configured user agent and credential.
pub proof fn lemma_default_headers_len(user_agent: Seq<char>, authorization: Seq<char>)
    ensures
        spec_default_headers(user_agent, authorization).len() == 5,
        spec_default_headers(user_agent, authorization).dom() =~= set![
            "Content-Type"@,
            "Square-Version"@,
            "accept"@,
            "user-agent"@,
            "Authorization"@,
        ],
{
    broadcast use vstd::set::axiom_set_insert_len;

    reveal_strlit("Content-Type");
    reveal_strlit("Square-Version");
    reveal_strlit("accept");
    reveal_strlit("user-agent");
    reveal_strlit("Authorization");
    assert(("Content-Type"@).len() == 12);
    assert(("Square-Version"@).len() == 14);
    assert(("accept"@).len() == 6);
    assert(("user-agent"@).len() == 10);
    assert(("Authorization"@).len() == 13);
}

} // verus!
