//! The query builder: an immutable configuration object describing a
//! range/filter/sort request over a collection, together with its two
//! serializations. A listing request flattens the configuration into URL
//! query parameters and always omits the filter expression; an expression
//! query serializes it as one JSON object, where the filter is included only
//! when it is non-empty (an empty or absent expression means "no filter").

use vstd::prelude::*;
use crate::text::{append_dec, append_json_string, dec_str, dec_string, json_string};

verus! {

/// The direction in which the server returns matching records.
#[derive(Debug, Clone, Copy, PartialEq, Eq, Structural)]
pub enum SortOrder {
    Asc,
    Desc,
}

/// The wire spelling of a sort order.
pub open spec fn order_str(o: SortOrder) -> Seq<char> {
    match o {
        SortOrder::Asc => "asc"@,
        SortOrder::Desc => "desc"@,
    }
}

/// The wire spelling of a boolean.
pub open spec fn bool_str(b: bool) -> Seq<char> {
    if b {
        "true"@
    } else {
        "false"@
    }
}

/// Range, pagination, sort and filter options for a listing or expression
/// query. Every field is optional except `keys` (whether the results carry
/// their keys), which defaults to `false`. Each setter consumes the builder
/// and returns the updated one, so calls chain declaratively.
#[derive(Debug)]
pub struct QueryBuilder {
    pub from: Option<String>,
    pub to: Option<String>,
    pub limit: Option<usize>,
    pub order: Option<SortOrder>,
    pub keys: bool,
    pub query: Option<String>,
}

/// Holds when `q` requests everything: no range, no limit, no order, no
/// filter, and results without keys.
pub open spec fn is_unconstrained(q: QueryBuilder) -> bool {
    &&& q.from is None
    &&& q.to is None
    &&& q.limit is None
    &&& q.order is None
    &&& q.keys == false
    &&& q.query is None
}

impl Default for QueryBuilder {
    /// The configuration that requests everything.
    fn default() -> (q: Self)
        ensures
            is_unconstrained(q),
    {
        QueryBuilder {
            from: None,
            to: None,
            limit: None,
            order: None,
            keys: false,
            query: None,
        }
    }
}

impl QueryBuilder {
    /// The configuration that requests everything.
    pub fn new() -> (q: Self)
        ensures
            is_unconstrained(q),
    {
        QueryBuilder {
            from: None,
            to: None,
            limit: None,
            order: None,
            keys: false,
            query: None,
        }
    }

    /// Sets the filter expression; everything else is kept.
    pub fn query(self, query: &str) -> (r: Self)
        ensures
            r.query matches Some(s) && s@ == query@,
            r.from == self.from,
            r.to == self.to,
            r.limit == self.limit,
            r.order == self.order,
            r.keys == self.keys,
    {
        QueryBuilder { query: Some(query.to_owned()), ..self }
    }

    /// Sets whether results carry their keys; everything else is kept.
    pub fn keys(self, include_keys: bool) -> (r: Self)
        ensures
            r.keys == include_keys,
            r.from == self.from,
            r.to == self.to,
            r.limit == self.limit,
            r.order == self.order,
            r.query == self.query,
    {
        QueryBuilder { keys: include_keys, ..self }
    }

    /// Sets the sort order; everything else is kept.
    pub fn order(self, order: SortOrder) -> (r: Self)
        ensures
            r.order == Some(order),
            r.from == self.from,
            r.to == self.to,
            r.limit == self.limit,
            r.keys == self.keys,
            r.query == self.query,
    {
        QueryBuilder { order: Some(order), ..self }
    }

    /// Sets or clears the lower bound of the range; everything else is kept.
    pub fn from(self, from: Option<&str>) -> (r: Self)
        ensures
            match from {
                Some(s) => r.from matches Some(f) && f@ == s@,
                None => r.from is None,
            },
            r.to == self.to,
            r.limit == self.limit,
            r.order == self.order,
            r.keys == self.keys,
            r.query == self.query,
    {
        let from_owned = match from {
            Some(s) => Some(s.to_owned()),
            None => None,
        };
        QueryBuilder { from: from_owned, ..self }
    }

    /// Sets or clears the upper bound of the range; everything else is kept.
    pub fn to(self, to: Option<&str>) -> (r: Self)
        ensures
            match to {
                Some(s) => r.to matches Some(t) && t@ == s@,
                None => r.to is None,
            },
            r.from == self.from,
            r.limit == self.limit,
            r.order == self.order,
            r.keys == self.keys,
            r.query == self.query,
    {
        let to_owned = match to {
            Some(s) => Some(s.to_owned()),
            None => None,
        };
        QueryBuilder { to: to_owned, ..self }
    }

    /// Sets or clears the maximum number of results; everything else is kept.
    pub fn limit(self, limit: Option<usize>) -> (r: Self)
        ensures
            r.limit == limit,
            r.from == self.from,
            r.to == self.to,
            r.order == self.order,
            r.keys == self.keys,
            r.query == self.query,
    {
        QueryBuilder { limit, ..self }
    }
}

/// The views of a sequence of owned parameter pairs.
pub open spec fn param_views(ps: Seq<(String, String)>) -> Seq<(Seq<char>, Seq<char>)> {
    ps.map_values(|p: (String, String)| (p.0@, p.1@))
}

/// A parameter that is present only when its value is.
pub open spec fn opt_param(name: Seq<char>, value: Option<Seq<char>>) -> Seq<
    (Seq<char>, Seq<char>),
> {
    match value {
        Some(v) => seq![(name, v)],
        None => seq![],
    }
}

/// The view of an optional owned string.
pub open spec fn opt_view(s: Option<String>) -> Option<Seq<char>> {
    match s {
        Some(v) => Some(v@),
        None => None,
    }
}

/// The query parameters of the listing serialization of `q`: `from`, `to`,
/// `limit` and `order` when set, then always `keys`. The filter expression is
/// never among them.
pub open spec fn params_spec(q: QueryBuilder) -> Seq<(Seq<char>, Seq<char>)> {
    opt_param("from"@, opt_view(q.from)) + opt_param("to"@, opt_view(q.to)) + opt_param(
        "limit"@,
        match q.limit {
            Some(n) => Some(dec_str(n as nat)),
            None => None,
        },
    ) + opt_param(
        "order"@,
        match q.order {
            Some(o) => Some(order_str(o)),
            None => None,
        },
    ) + seq![("keys"@, bool_str(q.keys))]
}

/// The JSON-object serialization of `q` for an expression query. `keys` comes
/// first since it is always present; each optional field follows only when
/// set; the filter expression is included only when non-empty.
pub open spec fn body_spec(q: QueryBuilder) -> Seq<char> {
    "{\"keys\":"@ + bool_str(q.keys) + (match q.from {
        Some(f) => ",\"from\":"@ + json_string(f@),
        None => Seq::<char>::empty(),
    }) + (match q.to {
        Some(t) => ",\"to\":"@ + json_string(t@),
        None => Seq::<char>::empty(),
    }) + (match q.limit {
        Some(n) => ",\"limit\":"@ + dec_str(n as nat),
        None => Seq::<char>::empty(),
    }) + (match q.order {
        Some(o) => ",\"order\":\""@ + order_str(o) + "\""@,
        None => Seq::<char>::empty(),
    }) + (match q.query {
        Some(s) => if s@.len() > 0 {
            ",\"query\":"@ + json_string(s@)
        } else {
            Seq::<char>::empty()
        },
        None => Seq::<char>::empty(),
    }) + "}"@
}

impl QueryBuilder {
    /// Serializes the configuration as URL query parameters, for a listing
    /// request. The filter expression is omitted in this form; expression
    /// queries go through `to_body` instead.
    pub fn to_params(&self) -> (r: Vec<(String, String)>)
        ensures
            param_views(r@) == params_spec(*self),
    {
        let mut r: Vec<(String, String)> = Vec::new();
        match &self.from {
            Some(f) => {
                r.push((String::from_str("from"), f.clone()));
            },
            None => {},
        }
        proof {
            assert(param_views(r@) =~= opt_param("from"@, opt_view(self.from)));
        }
        match &self.to {
            Some(t) => {
                r.push((String::from_str("to"), t.clone()));
            },
            None => {},
        }
        proof {
            assert(param_views(r@) =~= opt_param("from"@, opt_view(self.from)) + opt_param(
                "to"@,
                opt_view(self.to),
            ));
        }
        match self.limit {
            Some(n) => {
                r.push((String::from_str("limit"), dec_string(n)));
            },
            None => {},
        }
        match self.order {
            Some(o) => {
                let name = match o {
                    SortOrder::Asc => "asc",
                    SortOrder::Desc => "desc",
                };
                r.push((String::from_str("order"), String::from_str(name)));
            },
            None => {},
        }
        let keys_value = if self.keys {
            "true"
        } else {
            "false"
        };
        r.push((String::from_str("keys"), String::from_str(keys_value)));
        proof {
            assert(param_views(r@) =~= params_spec(*self));
        }
        r
    }

    /// Serializes the configuration as one JSON object, for an expression
    /// query.
    #[verifier::rlimit(30)]
    pub fn to_body(&self) -> (r: String)
        ensures
            r@ == body_spec(*self),
    {
        let ghost part_keys = "{\"keys\":"@ + bool_str(self.keys);
        let ghost part_from = part_keys + (match &self.from {
            Some(f) => ",\"from\":"@ + json_string(f@),
            None => Seq::<char>::empty(),
        });
        let ghost part_to = part_from + (match &self.to {
            Some(t) => ",\"to\":"@ + json_string(t@),
            None => Seq::<char>::empty(),
        });
        let ghost part_limit = part_to + (match self.limit {
            Some(n) => ",\"limit\":"@ + dec_str(n as nat),
            None => Seq::<char>::empty(),
        });
        let ghost part_order = part_limit + (match self.order {
            Some(o) => ",\"order\":\""@ + order_str(o) + "\""@,
            None => Seq::<char>::empty(),
        });
        let ghost part_query = part_order + (match &self.query {
            Some(s) => if s@.len() > 0 {
                ",\"query\":"@ + json_string(s@)
            } else {
                Seq::<char>::empty()
            },
            None => Seq::<char>::empty(),
        });
        let mut out = String::from_str("{\"keys\":");
        out.append(if self.keys { "true" } else { "false" });
        proof {
            assert(out@ =~= part_keys);
        }
        match &self.from {
            Some(f) => {
                out.append(",\"from\":");
                append_json_string(&mut out, f.as_str());
            },
            None => {},
        }
        proof {
            assert(out@ =~= part_from);
        }
        match &self.to {
            Some(t) => {
                out.append(",\"to\":");
                append_json_string(&mut out, t.as_str());
            },
            None => {},
        }
        proof {
            assert(out@ =~= part_to);
        }
        match self.limit {
            Some(n) => {
                out.append(",\"limit\":");
                append_dec(&mut out, n);
            },
            None => {},
        }
        proof {
            assert(out@ =~= part_limit);
        }
        match self.order {
            Some(o) => {
                out.append(",\"order\":\"");
                let name = match o {
                    SortOrder::Asc => "asc",
                    SortOrder::Desc => "desc",
                };
                out.append(name);
                out.append("\"");
            },
            None => {},
        }
        proof {
            assert(out@ =~= part_order);
        }
        match &self.query {
            Some(s) => {
                if s.as_str().unicode_len() > 0 {
                    out.append(",\"query\":");
                    append_json_string(&mut out, s.as_str());
                }
            },
            None => {},
        }
        proof {
            assert(out@ =~= part_query);
        }
        out.append("}");
        proof {
            assert(out@ =~= body_spec(*self));
        }
        out
    }
}

/// Law: the listing serialization omits the filter expression entirely: no
/// query parameter is named `query`, whatever the builder holds.
pub proof fn lemma_params_omit_filter(q: QueryBuilder)
    ensures
        forall|i: int| 0 <= i < params_spec(q).len() ==> params_spec(q)[i].0 != "query"@,
{
    reveal_strlit("from");
    reveal_strlit("to");
    reveal_strlit("limit");
    reveal_strlit("order");
    reveal_strlit("keys");
    reveal_strlit("query");
    assert("limit"@[0] == 'l' && "query"@[0] == 'q');
    assert("order"@[0] == 'o');
    assert("limit"@ != "query"@) by {
        if "limit"@ == "query"@ {
            assert("limit"@[0] == "query"@[0]);
        }
    }
    assert("order"@ != "query"@) by {
        if "order"@ == "query"@ {
            assert("order"@[0] == "query"@[0]);
        }
    }
}

/// Law: an empty filter expression means "no filter". A builder whose filter
/// is the empty string serializes to the very same JSON body as one with no
/// filter at all; the two are indistinguishable on the wire.
pub proof fn lemma_empty_filter_is_no_filter(q1: QueryBuilder, q2: QueryBuilder)
    requires
        q1.query matches Some(s) && s@.len() == 0,
        q2.query is None,
        q1.from == q2.from,
        q1.to == q2.to,
        q1.limit == q2.limit,
        q1.order == q2.order,
        q1.keys == q2.keys,
    ensures
        body_spec(q1) == body_spec(q2),
{
}

} // verus!
