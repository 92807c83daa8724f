//! Query templates with positional placeholders and their bound values.
//!
//! A `BoundQuery` is the builders' output: template text containing `?`
//! placeholders, plus the values to bind, in placeholder order. The
//! well-formedness invariant ties the two together: the template has
//! exactly as many placeholders as there are values.

use vstd::prelude::*;
use crate::values::{Value, ValueV};

verus! {

/// Number of `?` placeholders in a stretch of query text.
pub open spec fn count_placeholders(s: Seq<char>) -> int
    decreases s.len(),
{
    if s.len() == 0 {
        0
    } else {
        (if s[0] == '?' { 1int } else { 0int }) + count_placeholders(s.skip(1))
    }
}

pub proof fn lemma_count_placeholders_concat(a: Seq<char>, b: Seq<char>)
    ensures
        count_placeholders(a + b) == count_placeholders(a) + count_placeholders(b),
    decreases a.len(),
{
    if a.len() == 0 {
        assert(a + b =~= b);
    } else {
        assert((a + b).skip(1) =~= a.skip(1) + b);
        lemma_count_placeholders_concat(a.skip(1), b);
    }
}

/// The mathematical value of a bound query: template text and parameter
/// values, in binding order.
pub ghost struct QueryModel {
    pub template: Seq<char>,
    pub params: Seq<ValueV>,
}

/// A query template plus its ordered bound values. No user data ever
/// stands in `template`; it only ever stands in `params`.
pub struct BoundQuery {
    pub template: String,
    pub params: Vec<Value>,
}

impl BoundQuery {
    /// The template has exactly one `?` per bound value.
    pub open spec fn wf(&self) -> bool {
        count_placeholders(self.template@) == self.params@.len()
    }

    pub open spec fn model(&self) -> QueryModel {
        QueryModel { template: self.template@, params: self.params.deep_view() }
    }
}

/// Accumulator the builders grow a query in. The invariant that placeholder
/// count equals parameter count is maintained by every push.
pub struct QueryBuf {
    sql: String,
    params: Vec<Value>,
}

impl QueryBuf {
    pub closed spec fn template(&self) -> Seq<char> {
        self.sql@
    }

    pub closed spec fn params(&self) -> Seq<ValueV> {
        self.params.deep_view()
    }

    pub closed spec fn wf(&self) -> bool {
        count_placeholders(self.sql@) == self.params@.len()
    }

    pub fn new() -> (r: Self)
        ensures
            r.template() == Seq::<char>::empty(),
            r.params() == Seq::<ValueV>::empty(),
            r.wf(),
    {
        let r = QueryBuf { sql: String::new(), params: Vec::new() };
        assert(r.params.deep_view() =~= Seq::<ValueV>::empty());
        r
    }

    /// Append placeholder-free query text.
    pub fn push_sql(&mut self, frag: &str)
        requires
            old(self).wf(),
            count_placeholders(frag@) == 0,
        ensures
            final(self).template() == old(self).template() + frag@,
            final(self).params() == old(self).params(),
            final(self).wf(),
    {
        proof {
            lemma_count_placeholders_concat(self.sql@, frag@);
        }
        self.sql.append(frag);
    }

    /// Append query text holding exactly one placeholder, with its value.
    pub fn push_param_sql(&mut self, frag: &str, v: Value)
        requires
            old(self).wf(),
            count_placeholders(frag@) == 1,
        ensures
            final(self).template() == old(self).template() + frag@,
            final(self).params() == old(self).params().push(v@),
            final(self).wf(),
    {
        proof {
            lemma_count_placeholders_concat(self.sql@, frag@);
        }
        self.sql.append(frag);
        self.params.push(v);
        assert(self.params.deep_view() =~= old(self).params.deep_view().push(v@));
    }

    /// Append query text holding exactly two placeholders, with the two
    /// values in placeholder order.
    pub fn push_param2_sql(&mut self, frag: &str, v1: Value, v2: Value)
        requires
            old(self).wf(),
            count_placeholders(frag@) == 2,
        ensures
            final(self).template() == old(self).template() + frag@,
            final(self).params() == old(self).params().push(v1@).push(v2@),
            final(self).wf(),
    {
        proof {
            lemma_count_placeholders_concat(self.sql@, frag@);
        }
        self.sql.append(frag);
        self.params.push(v1);
        self.params.push(v2);
        assert(self.params.deep_view() =~= old(self).params.deep_view().push(v1@).push(v2@));
    }

    /// Append a whole bound fragment: its text and its values.
    pub fn push_bound(&mut self, q: BoundQuery)
        requires
            old(self).wf(),
            q.wf(),
        ensures
            final(self).template() == old(self).template() + q.template@,
            final(self).params() == old(self).params() + q.model().params,
            final(self).wf(),
    {
        proof {
            lemma_count_placeholders_concat(self.sql@, q.template@);
        }
        self.sql.append(q.template.as_str());
        let mut tail = q.params;
        self.params.append(&mut tail);
        assert(self.params.deep_view() =~= old(self).params.deep_view() + q.params.deep_view());
    }

    /// Close the accumulator into a well-formed bound query.
    pub fn finish(self) -> (q: BoundQuery)
        requires
            self.wf(),
        ensures
            q.template@ == self.template(),
            q.model().params == self.params(),
            q.wf(),
    {
        BoundQuery { template: self.sql, params: self.params }
    }
}

} // verus!
