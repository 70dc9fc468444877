use vstd::prelude::*;

use crate::RequestMethod;

verus! {

/// A header set, modelled as a sequence of name/value pairs in insertion
/// order. Registering a name again overwrites its value in place.
pub type HeaderPairs = Seq<(Seq<char>, Seq<char>)>;

/// The view of an executable header list.
pub open spec fn hs_view(h: Seq<(String, String)>) -> HeaderPairs {
    h.map(|i: int, kv: (String, String)| (kv.0@, kv.1@))
}

/// Insert a header: overwrite the value of the first pair with this name,
/// keeping its position, or append a new pair at the end.
pub open spec fn hs_insert(h: HeaderPairs, k: Seq<char>, v: Seq<char>) -> HeaderPairs
    decreases h.len(),
{
    if h.len() == 0 {
        seq![(k, v)]
    } else if h[0].0 == k {
        seq![(k, v)] + h.drop_first()
    } else {
        seq![h[0]] + hs_insert(h.drop_first(), k, v)
    }
}

/// The value registered under a name: that of the first pair carrying it.
pub open spec fn hs_lookup(h: HeaderPairs, k: Seq<char>) -> Option<Seq<char>>
    decreases h.len(),
{
    if h.len() == 0 {
        None
    } else if h[0].0 == k {
        Some(h[0].1)
    } else {
        hs_lookup(h.drop_first(), k)
    }
}

/// After an insert, the inserted value is the one registered under the name.
pub proof fn lemma_insert_lookup(h: HeaderPairs, k: Seq<char>, v: Seq<char>)
    ensures
        hs_lookup(hs_insert(h, k, v), k) == Some(v),
    decreases h.len(),
{
    if h.len() == 0 {
    } else if h[0].0 == k {
    } else {
        lemma_insert_lookup(h.drop_first(), k, v);
        assert((seq![h[0]] + hs_insert(h.drop_first(), k, v)).drop_first() =~= hs_insert(
            h.drop_first(),
            k,
            v,
        ));
    }
}

/// Last write wins: registering the same name twice, whoever did either
/// write, leaves the second value registered.
pub proof fn lemma_last_write_wins(h: HeaderPairs, k: Seq<char>, v1: Seq<char>, v2: Seq<char>)
    ensures
        hs_lookup(hs_insert(hs_insert(h, k, v1), k, v2), k) == Some(v2),
{
    lemma_insert_lookup(hs_insert(h, k, v1), k, v2);
}

/// What a header builder looks like to a specification: its read-only
/// context (verb, resolved URL, body text) and the headers gathered so far.
#[verifier::ext_equal]
pub struct BuilderView {
    pub method: RequestMethod,
    pub url: Seq<char>,
    pub body: Seq<char>,
    pub headers: HeaderPairs,
}

/// Accumulates the outgoing headers of exactly one in-flight call.
///
/// It is seeded with the call's verb, resolved URL and serialized body as
/// read-only context, so a customization hook can derive signatures or
/// content lengths from them; it is consumed by [`RestHeaderBuilder::build`]
/// and never reused.
pub struct RestHeaderBuilder {
    pub method: RequestMethod,
    pub url: String,
    pub body: String,
    headers: Vec<(String, String)>,
}

impl View for RestHeaderBuilder {
    type V = BuilderView;

    closed spec fn view(&self) -> BuilderView {
        BuilderView {
            method: self.method,
            url: self.url@,
            body: self.body@,
            headers: hs_view(self.headers@),
        }
    }
}

impl RestHeaderBuilder {
    /// A fresh builder for one call: the given context, no headers yet.
    pub fn new(method: RequestMethod, url: &str, body: &str) -> (b: Self)
        ensures
            b@ == (BuilderView { method: method, url: url@, body: body@, headers: Seq::empty() }),
    {
        let b = RestHeaderBuilder {
            method: method,
            url: url.to_owned(),
            body: body.to_owned(),
            headers: Vec::new(),
        };
        proof {
            assert(b@ =~= (BuilderView { method: method, url: url@, body: body@, headers: Seq::empty() }));
        }
        b
    }

    /// Register the content-type header; a later write still wins.
    pub fn content_type(&mut self, value: &str)
        ensures
            final(self)@ == (BuilderView {
                headers: hs_insert(old(self)@.headers, "content-type"@, value@),
                ..old(self)@
            }),
    {
        self.with("content-type", value);
    }

    /// Register an arbitrary header, overwriting any prior value of the name.
    pub fn with(&mut self, key: &str, value: &str)
        ensures
            final(self)@ == (BuilderView {
                headers: hs_insert(old(self)@.headers, key@, value@),
                ..old(self)@
            }),
    {
        let key_owned: String = key.to_owned();
        let mut i: usize = 0;
        while i < self.headers.len()
            invariant
                *self == *old(self),
                key_owned@ == key@,
                0 <= i <= self.headers@.len(),
                forall|j: int| 0 <= j < i ==> hs_view(self.headers@)[j].0 != key@,
            decreases self.headers@.len() - i,
        {
            if self.headers[i].0 == key_owned {
                let value_owned: String = value.to_owned();
                self.headers.remove(i);
                self.headers.insert(i, (key_owned, value_owned));
                proof {
                    lemma_insert_at_found(hs_view(old(self).headers@), key@, value@, i as int);
                    assert(hs_view(self.headers@) =~= hs_view(old(self).headers@).update(
                        i as int,
                        (key@, value@),
                    ));
                    assert(self@ =~= (BuilderView {
                        headers: hs_insert(old(self)@.headers, key@, value@),
                        ..old(self)@
                    }));
                }
                return ;
            }
            i += 1;
        }
        let value_owned: String = value.to_owned();
        self.headers.push((key_owned, value_owned));
        proof {
            lemma_insert_absent(hs_view(old(self).headers@), key@, value@);
            assert(hs_view(self.headers@) =~= hs_view(old(self).headers@).push((key@, value@)));
            assert(self@ =~= (BuilderView {
                headers: hs_insert(old(self)@.headers, key@, value@),
                ..old(self)@
            }));
        }
    }

    /// Finalize: hand out the completed header set and consume the builder.
    pub fn build(self) -> (r: Vec<(String, String)>)
        ensures
            hs_view(r@) == self@.headers,
    {
        self.headers
    }
}

/// Inserting a name that sits at position `i` (and nowhere earlier) updates
/// that position in place.
proof fn lemma_insert_at_found(h: HeaderPairs, k: Seq<char>, v: Seq<char>, i: int)
    requires
        0 <= i < h.len(),
        h[i].0 == k,
        forall|j: int| 0 <= j < i ==> h[j].0 != k,
    ensures
        hs_insert(h, k, v) == h.update(i, (k, v)),
    decreases h.len(),
{
    if i == 0 {
        assert(hs_insert(h, k, v) =~= h.update(0, (k, v)));
    } else {
        assert(forall|j: int| 0 <= j < i - 1 ==> h.drop_first()[j].0 != k);
        lemma_insert_at_found(h.drop_first(), k, v, i - 1);
        assert(hs_insert(h, k, v) =~= h.update(i, (k, v)));
    }
}

/// Inserting a name that is absent appends the pair at the end.
proof fn lemma_insert_absent(h: HeaderPairs, k: Seq<char>, v: Seq<char>)
    requires
        forall|j: int| 0 <= j < h.len() ==> h[j].0 != k,
    ensures
        hs_insert(h, k, v) == h.push((k, v)),
    decreases h.len(),
{
    if h.len() == 0 {
        assert(hs_insert(h, k, v) =~= h.push((k, v)));
    } else {
        assert(forall|j: int| 0 <= j < h.drop_first().len() ==> h.drop_first()[j].0 != k);
        lemma_insert_absent(h.drop_first(), k, v);
        assert(hs_insert(h, k, v) =~= h.push((k, v)));
    }
}

/// A client-wide hook that customizes the headers of every call, e.g. to add
/// authentication material derived from the verb, URL and body it can read
/// from the builder. A hook is a fixed transformation of the builder: its
/// executable side must return exactly what its specification side says.
pub trait HeaderHook: Sized {
    /// What the hook does to a builder. Arbitrary unless the implementation
    /// defines it; one written for verification must, since `apply` cannot
    /// meet its contract otherwise.
    open spec fn spec_apply(&self, b: BuilderView) -> BuilderView {
        arbitrary()
    }

    /// Let the hook add to or override the headers gathered so far.
    fn apply(&self, b: RestHeaderBuilder) -> (r: RestHeaderBuilder)
        ensures
            r@ == self.spec_apply(b@),
    ;
}

/// The hook of a client that customizes nothing: it leaves every builder as
/// it is.
pub struct NoHook;

impl HeaderHook for NoHook {
    open spec fn spec_apply(&self, b: BuilderView) -> BuilderView {
        b
    }

    fn apply(&self, b: RestHeaderBuilder) -> (r: RestHeaderBuilder)
        ensures
            r@ == self.spec_apply(b@),
    {
        b
    }
}

} // verus!
